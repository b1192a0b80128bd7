//! JPEG to JPEG: one raster resize and re-encode with the sharpening
//! resampling filter, no intermediate.

use vstd::prelude::*;

verus! {

use crate::{Dimensions, PathAccessor, Quality};
use crate::plan::{is_raster_resize, Filter, Step};
use crate::utils::magick;

/// The JPEG-to-JPEG plan: one raster resize with the Lanczos filter.
pub open spec fn plan_spec(
    inp: Seq<char>,
    outp: Seq<char>,
    w: Option<u32>,
    h: Option<u32>,
    steps: Seq<Step>,
) -> bool {
    steps.len() == 1 && is_raster_resize(steps[0], inp, outp, w, h, Some(Filter::Lanczos))
}

/// Plans the JPEG-to-JPEG conversion.
pub fn convert<T: PathAccessor + Dimensions + Quality>(config: &T) -> (r: Result<
    Vec<Step>,
    magick::Error,
>)
    ensures
        r matches Ok(steps) && plan_spec(
            config.spec_input_path(),
            config.spec_output_path(),
            config.spec_width(),
            config.spec_height(),
            steps@,
        ),
{
    let step = match magick::optimize(config, Some(Filter::Lanczos)) {
        Ok(s) => s,
        Err(e) => {
            return Err(e);
        },
    };
    let mut steps: Vec<Step> = Vec::new();
    steps.push(step);
    Ok(steps)
}

} // verus!
