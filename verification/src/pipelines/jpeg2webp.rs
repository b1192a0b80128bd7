//! JPEG to WEBP: one WEBP encode; the fitted resize happens inside the
//! encode stage, so there is no intermediate.

use vstd::prelude::*;

verus! {

use crate::{Dimensions, PathAccessor, Quality};
use crate::plan::{is_webp_encode, Step};
use crate::utils::webp::{self, Error};

/// The JPEG-to-WEBP plan: one WEBP encode on the two paths.
pub open spec fn plan_spec(
    inp: Seq<char>,
    outp: Seq<char>,
    w: Option<u32>,
    h: Option<u32>,
    q: Option<u32>,
    steps: Seq<Step>,
) -> bool {
    steps.len() == 1 && is_webp_encode(steps[0], inp, outp, w, h, q)
}

/// Plans the JPEG-to-WEBP conversion.
pub fn convert<T: PathAccessor + Dimensions + Quality>(config: &T) -> (r: Result<Vec<Step>, Error>)
    ensures
        r matches Ok(steps) && plan_spec(
            config.spec_input_path(),
            config.spec_output_path(),
            config.spec_width(),
            config.spec_height(),
            config.spec_quality(),
            steps@,
        ),
{
    let step = match webp::optimize(config) {
        Ok(s) => s,
        Err(e) => {
            return Err(e);
        },
    };
    let mut steps: Vec<Step> = Vec::new();
    steps.push(step);
    Ok(steps)
}

} // verus!
