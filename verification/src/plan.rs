//! The steps a conversion pipeline runs, and a small model of their
//! effect on the set of files they create and remove.

use vstd::prelude::*;

verus! {

/// The resampling filter a raster resize step may name.
#[derive(Debug, Clone, Copy, PartialEq, Eq, Structural)]
pub enum Filter {
    Lanczos,
}

/// One unit of outside work a pipeline asks for.  Every step reads one
/// input file and writes one output file, except `RemoveFile`, which only
/// deletes its path.
#[derive(Debug, PartialEq)]
pub enum Step {
    /// Decode a raster image, normalize its orientation, resize it into
    /// the box `(width, height)` (absent sides taken from the source) and
    /// re-encode it at the default compression quality.
    RasterResize {
        input: String,
        output: String,
        width: Option<u32>,
        height: Option<u32>,
        filter: Option<Filter>,
    },
    /// Run the external GIF optimizer, handing the dimensions through to
    /// its own resize flags.
    GifOptimize {
        input: String,
        output: String,
        width: Option<u32>,
        height: Option<u32>,
        quality: Option<u32>,
    },
    /// Run the external animated-GIF-to-WEBP transcoder on the two paths.
    GifToWebp { input: String, output: String },
    /// Decode a raster image and encode it as WEBP at the fitted
    /// dimensions: lossy at the given quality, lossless without one.
    WebpEncode {
        input: String,
        output: String,
        width: Option<u32>,
        height: Option<u32>,
        quality: Option<u32>,
    },
    /// Re-encode a PNG losslessly for minimal size, stripping metadata
    /// that does not affect display.
    PngOptimize { input: String, output: String },
    /// Decode a PNG, normalize its colour layout, resample it to the
    /// fitted dimensions and encode it as AVIF.
    AvifEncode {
        input: String,
        output: String,
        width: Option<u32>,
        height: Option<u32>,
        quality: Option<u32>,
    },
    /// Delete one intermediate file.
    RemoveFile { path: String },
}

pub open spec fn is_raster_resize(
    s: Step,
    inp: Seq<char>,
    outp: Seq<char>,
    w: Option<u32>,
    h: Option<u32>,
    f: Option<Filter>,
) -> bool {
    s matches Step::RasterResize { input, output, width, height, filter } && input@ == inp
        && output@ == outp && width == w && height == h && filter == f
}

pub open spec fn is_gif_optimize(
    s: Step,
    inp: Seq<char>,
    outp: Seq<char>,
    w: Option<u32>,
    h: Option<u32>,
    q: Option<u32>,
) -> bool {
    s matches Step::GifOptimize { input, output, width, height, quality } && input@ == inp
        && output@ == outp && width == w && height == h && quality == q
}

pub open spec fn is_gif_to_webp(s: Step, inp: Seq<char>, outp: Seq<char>) -> bool {
    s matches Step::GifToWebp { input, output } && input@ == inp && output@ == outp
}

pub open spec fn is_webp_encode(
    s: Step,
    inp: Seq<char>,
    outp: Seq<char>,
    w: Option<u32>,
    h: Option<u32>,
    q: Option<u32>,
) -> bool {
    s matches Step::WebpEncode { input, output, width, height, quality } && input@ == inp
        && output@ == outp && width == w && height == h && quality == q
}

pub open spec fn is_png_optimize(s: Step, inp: Seq<char>, outp: Seq<char>) -> bool {
    s matches Step::PngOptimize { input, output } && input@ == inp && output@ == outp
}

pub open spec fn is_avif_encode(
    s: Step,
    inp: Seq<char>,
    outp: Seq<char>,
    w: Option<u32>,
    h: Option<u32>,
    q: Option<u32>,
) -> bool {
    s matches Step::AvifEncode { input, output, width, height, quality } && input@ == inp
        && output@ == outp && width == w && height == h && quality == q
}

pub open spec fn is_remove_file(s: Step, p: Seq<char>) -> bool {
    s matches Step::RemoveFile { path } && path@ == p
}

/// The file a step writes, or the file it removes.
pub open spec fn step_writes(s: Step) -> Option<Seq<char>> {
    match s {
        Step::RasterResize { output, .. } => Some(output@),
        Step::GifOptimize { output, .. } => Some(output@),
        Step::GifToWebp { output, .. } => Some(output@),
        Step::WebpEncode { output, .. } => Some(output@),
        Step::PngOptimize { output, .. } => Some(output@),
        Step::AvifEncode { output, .. } => Some(output@),
        Step::RemoveFile { .. } => None,
    }
}

/// The set of files on disk after one step succeeds, given the set before
/// it: a writing step adds its output, a removing step takes its path away.
pub open spec fn step_files(s: Step, files: Set<Seq<char>>) -> Set<Seq<char>> {
    match s {
        Step::RemoveFile { path } => files.remove(path@),
        _ => files.insert(step_writes(s).unwrap()),
    }
}

/// The set of files on disk after a whole plan succeeds, step by step.
pub open spec fn files_after(steps: Seq<Step>, files: Set<Seq<char>>) -> Set<Seq<char>>
    decreases steps.len(),
{
    if steps.len() == 0 {
        files
    } else {
        files_after(steps.drop_first(), step_files(steps[0], files))
    }
}

} // verus!
