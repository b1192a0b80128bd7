//! The raster resize/re-encode adapter: plans one decode, orientation
//! normalization, fitted resize and re-encode of a raster image.

use vstd::prelude::*;

verus! {

use crate::{Dimensions, PathAccessor};
use crate::plan::{is_raster_resize, Filter, Step};

/// What the raster codec stage can come to.
#[derive(Debug, PartialEq)]
pub enum Error {
    /// The codec itself refused the image, with its message.
    Magick(String),
    /// A file could not be read, created or written.
    Io(String),
    /// A dimension did not fit the codec's integer range.
    TryFromIntError,
}

/// Plans one run of the raster codec: decode, orientation normalization,
/// resize into the requested box (absent sides taken from the source, via
/// the shared fit), re-encode at the default compression quality.  With a
/// filter the resize uses that filter; without one the codec's adaptive
/// resize is used.
pub fn optimize<T: PathAccessor + Dimensions>(config: &T, filter: Option<Filter>) -> (r: Result<
    Step,
    Error,
>)
    ensures
        r matches Ok(s) && is_raster_resize(
            s,
            config.spec_input_path(),
            config.spec_output_path(),
            config.spec_width(),
            config.spec_height(),
            filter,
        ),
{
    Ok(
        Step::RasterResize {
            input: config.input_path().clone(),
            output: config.output_path().clone(),
            width: config.width(),
            height: config.height(),
            filter,
        },
    )
}

} // verus!
