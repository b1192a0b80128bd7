//! The lossless PNG optimizer adapter: plans the pipeline stage and
//! exposes the in-memory optimization itself.

use vstd::prelude::*;

verus! {

use crate::PathAccessor;
use crate::plan::{is_png_optimize, Step};

#[verifier::external_type_specification]
#[verifier::external_body]
pub struct ExPngError(oxipng::PngError);

/// The bytes that losslessly optimizing a given PNG yields: with a fixed
/// option set and no parallelism the optimizer is a function of the
/// input bytes alone.
pub uninterp spec fn optimized_png_of(data: Seq<u8>) -> Seq<u8>;

/// Whether the optimizer accepts a given byte sequence: under the same
/// fixed options, success too depends on the bytes alone.
pub uninterp spec fn png_optimizes(data: Seq<u8>) -> bool;

/// Relies on `oxipng::optimize_from_memory` with safe metadata stripping
/// and no forced rewrite: when the re-encoded image would not be smaller,
/// the input itself comes back, so the result is never longer than the
/// input.
#[verifier::external_body]
fn optimize_from_memory(data: &Vec<u8>) -> (r: Result<Vec<u8>, oxipng::PngError>)
    ensures
        r is Ok <==> png_optimizes(data@),
        r matches Ok(v) ==> v@ == optimized_png_of(data@) && v@.len() <= data@.len(),
{
    let options = oxipng::Options {
        strip: oxipng::StripChunks::Safe,
        ..oxipng::Options::default()
    };
    oxipng::optimize_from_memory(data, &options)
}

/// Re-encodes one PNG losslessly for minimal size, stripping metadata
/// that does not affect display.  Exactly the byte sequences the
/// optimizer accepts succeed, and the result is never longer than the
/// input: when no smaller encoding is found, the input comes back as is.
pub fn optimize_bytes(data: &Vec<u8>) -> (r: Result<Vec<u8>, oxipng::PngError>)
    ensures
        r is Ok <==> png_optimizes(data@),
        r matches Ok(v) ==> v@ == optimized_png_of(data@) && v@.len() <= data@.len(),
{
    optimize_from_memory(data)
}

/// Plans one lossless PNG optimization of the input path into the output
/// path.  This stage never resizes; resizing happens upstream.
pub fn optimize<T: PathAccessor>(config: &T) -> (r: Result<Step, oxipng::PngError>)
    ensures
        r matches Ok(s) && is_png_optimize(
            s,
            config.spec_input_path(),
            config.spec_output_path(),
        ),
{
    Ok(
        Step::PngOptimize {
            input: config.input_path().clone(),
            output: config.output_path().clone(),
        },
    )
}

} // verus!
