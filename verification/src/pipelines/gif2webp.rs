//! GIF to WEBP: the GIF optimizer resizes into an intermediate file,
//! the external transcoder turns it into the final WEBP, and the
//! intermediate is removed once the transcode has succeeded.

use vstd::prelude::*;

verus! {

use crate::{Config, Dimensions, PathAccessor};
use crate::paths::{replace_extension, with_ext};
use crate::plan::{
    files_after,
    is_gif_optimize,
    is_gif_to_webp,
    is_remove_file,
    step_files,
    Step,
};
use crate::pipelines::PathIO;
use crate::utils::{gifsicle, webp};

/// What the GIF-to-WEBP pipeline can come to.
#[derive(Debug)]
pub enum Error {
    /// The GIF optimizer stage failed.
    Gifsicle(gifsicle::Error),
    /// The transcoder stage failed.
    Webp(webp::Error),
    /// The intermediate file could not be removed.
    Io(String),
}

/// The intermediate path: the output path with its extension replaced.
pub open spec fn step1_path(outp: Seq<char>) -> Seq<char> {
    with_ext(outp, "step1"@)
}

/// The GIF-to-WEBP plan: optimize and resize into the intermediate,
/// transcode the intermediate to the output, then remove the
/// intermediate.
pub open spec fn plan_spec(
    inp: Seq<char>,
    outp: Seq<char>,
    w: Option<u32>,
    h: Option<u32>,
    steps: Seq<Step>,
) -> bool {
    steps.len() == 3 && is_gif_optimize(steps[0], inp, step1_path(outp), w, h, None)
        && is_gif_to_webp(steps[1], step1_path(outp), outp) && is_remove_file(
        steps[2],
        step1_path(outp),
    )
}

/// Plans the GIF-to-WEBP conversion.
pub fn convert<T: PathAccessor + Dimensions>(config: &T) -> (r: Result<Vec<Step>, Error>)
    ensures
        r matches Ok(steps) && plan_spec(
            config.spec_input_path(),
            config.spec_output_path(),
            config.spec_width(),
            config.spec_height(),
            steps@,
        ),
{
    let output_path = config.output_path();
    let step1_output_path = replace_extension(output_path.as_str(), "step1");
    let gifsicle_config = Config::new(
        config.input_path().as_str(),
        step1_output_path.as_str(),
        config.width(),
        config.height(),
    );
    let first = match gifsicle::optimize(&gifsicle_config) {
        Ok(s) => s,
        Err(e) => {
            return Err(Error::Gifsicle(e));
        },
    };
    let webp_config = PathIO::new(&step1_output_path, config.output_path());
    let second = match webp::optimize_gif(&webp_config) {
        Ok(s) => s,
        Err(e) => {
            return Err(Error::Webp(e));
        },
    };
    let mut steps: Vec<Step> = Vec::new();
    steps.push(first);
    steps.push(second);
    steps.push(Step::RemoveFile { path: step1_output_path });
    Ok(steps)
}

/// On the success path the intermediate file does not survive the plan:
/// its removal is the last step.
pub proof fn lemma_intermediate_removed(
    inp: Seq<char>,
    outp: Seq<char>,
    w: Option<u32>,
    h: Option<u32>,
    steps: Seq<Step>,
    files: Set<Seq<char>>,
)
    requires
        plan_spec(inp, outp, w, h, steps),
    ensures
        !files_after(steps, files).contains(step1_path(outp)),
{
    let s1 = steps.drop_first();
    let s2 = s1.drop_first();
    let s3 = s2.drop_first();
    let f1 = step_files(steps[0], files);
    let f2 = step_files(steps[1], f1);
    let f3 = step_files(steps[2], f2);
    assert(s1[0] == steps[1] && s2[0] == steps[2]);
    assert(s3.len() == 0);
    assert(files_after(steps, files) == files_after(s1, f1));
    assert(files_after(s1, f1) == files_after(s2, f2));
    assert(files_after(s2, f2) == files_after(s3, f3));
    assert(files_after(s3, f3) == f3);
}

} // verus!
