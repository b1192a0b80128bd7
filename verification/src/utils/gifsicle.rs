//! The GIF optimizer adapter: command-line construction for the external
//! tool and the mapping of its exit status.

use vstd::prelude::*;

verus! {

use vstd::string::StringExecFns;
use crate::{Dimensions, PathAccessor, Quality};
use crate::plan::{is_gif_optimize, Step};
use crate::text::{dec_str, u32_to_string};

/// What running the external GIF optimizer can come to.
#[derive(Debug, PartialEq)]
pub enum Error {
    /// The process could not be started or its files not reached.
    Io(String),
    /// The process ended itself with a non-zero status.
    Exit(i32),
    /// The process was ended by a signal and left no status.
    Signal,
}

/// The argument string handed to the external GIF optimizer: highest
/// optimization level, one resize flag per requested dimension, the lossy
/// level turned upside down from the quality, then input and output paths.
pub open spec fn args_spec(
    inp: Seq<char>,
    outp: Seq<char>,
    w: Option<u32>,
    h: Option<u32>,
    q: Option<u32>,
) -> Seq<char> {
    "-O3"@ + (if w is Some {
        " --resize-width "@ + dec_str(w->0 as int)
    } else {
        Seq::<char>::empty()
    }) + (if h is Some {
        " --resize-height "@ + dec_str(h->0 as int)
    } else {
        Seq::<char>::empty()
    }) + (if q is Some {
        " --lossy="@ + dec_str(100 - q->0 as int) + " --dither"@
    } else {
        Seq::<char>::empty()
    }) + " "@ + inp + " --output "@ + outp
}

/// Builds the external GIF optimizer's argument string for one conversion.
pub fn to_args<T: PathAccessor + Dimensions + Quality>(config: &T) -> (r: String)
    requires
        config.spec_quality() matches Some(q) ==> q <= 100,
    ensures
        r@ == args_spec(
            config.spec_input_path(),
            config.spec_output_path(),
            config.spec_width(),
            config.spec_height(),
            config.spec_quality(),
        ),
{
    let mut result = String::new();
    result.append("-O3");
    if let Some(width) = config.width() {
        result.append(" --resize-width ");
        let n = u32_to_string(width);
        result.append(n.as_str());
    }
    if let Some(height) = config.height() {
        result.append(" --resize-height ");
        let n = u32_to_string(height);
        result.append(n.as_str());
    }
    if let Some(quality) = config.quality() {
        result.append(" --lossy=");
        let n = u32_to_string(100 - quality);
        result.append(n.as_str());
        result.append(" --dither");
    }
    result.append(" ");
    result.append(config.input_path().as_str());
    result.append(" --output ");
    result.append(config.output_path().as_str());
    proof {
        assert(result@ =~= args_spec(
            config.spec_input_path(),
            config.spec_output_path(),
            config.spec_width(),
            config.spec_height(),
            config.spec_quality(),
        ));
    }
    result
}

/// Maps the exit status of the external GIF optimizer: status zero is
/// success, any other status is `Exit` with that code, and a process that
/// left no status (it was ended by a signal) is `Signal`.
pub fn process_exit_code(code: Option<i32>) -> (r: Result<(), Error>)
    ensures
        match code {
            Some(c) => if c == 0 {
                r is Ok
            } else {
                r == Err::<(), Error>(Error::Exit(c))
            },
            None => r == Err::<(), Error>(Error::Signal),
        },
{
    match code {
        Some(0) => Ok(()),
        Some(code) => Err(Error::Exit(code)),
        None => Err(Error::Signal),
    }
}

/// Plans one run of the external GIF optimizer on the configuration's
/// paths, dimensions and quality.
pub fn optimize<T: PathAccessor + Dimensions + Quality>(config: &T) -> (r: Result<Step, Error>)
    ensures
        r matches Ok(s) && is_gif_optimize(
            s,
            config.spec_input_path(),
            config.spec_output_path(),
            config.spec_width(),
            config.spec_height(),
            config.spec_quality(),
        ),
{
    Ok(
        Step::GifOptimize {
            input: config.input_path().clone(),
            output: config.output_path().clone(),
            width: config.width(),
            height: config.height(),
            quality: config.quality(),
        },
    )
}

} // verus!
