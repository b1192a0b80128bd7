//! GIF to GIF: one run of the external GIF optimizer, no intermediate.

use vstd::prelude::*;

verus! {

use crate::{Dimensions, PathAccessor, Quality};
use crate::plan::{is_gif_optimize, Step};
use crate::utils::gifsicle::{self, Error};

/// The GIF-to-GIF plan: exactly one GIF-optimizer run on the two paths
/// with the requested dimensions and quality.
pub open spec fn plan_spec(
    inp: Seq<char>,
    outp: Seq<char>,
    w: Option<u32>,
    h: Option<u32>,
    q: Option<u32>,
    steps: Seq<Step>,
) -> bool {
    steps.len() == 1 && is_gif_optimize(steps[0], inp, outp, w, h, q)
}

/// Plans the GIF-to-GIF conversion.
pub fn convert<T: PathAccessor + Dimensions + Quality>(config: &T) -> (r: Result<Vec<Step>, Error>)
    ensures
        r matches Ok(steps) && plan_spec(
            config.spec_input_path(),
            config.spec_output_path(),
            config.spec_width(),
            config.spec_height(),
            config.spec_quality(),
            steps@,
        ),
{
    let step = match gifsicle::optimize(config) {
        Ok(s) => s,
        Err(e) => {
            return Err(e);
        },
    };
    let mut steps: Vec<Step> = Vec::new();
    steps.push(step);
    Ok(steps)
}

} // verus!
