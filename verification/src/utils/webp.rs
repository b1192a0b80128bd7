//! The WEBP encode adapter: the decoded-buffer invariant, the encoder
//! settings decision, the fitted target dimensions, and the planning of
//! the encode and transcode stages.

use vstd::prelude::*;

verus! {

use vstd::string::StringExecFns;
use crate::{Dimensions, PathAccessor, Quality};
use crate::plan::{is_gif_to_webp, is_webp_encode, Step};
use crate::utils::target_spec;

/// A decoded image: a contiguous RGBA byte buffer with its dimensions.
/// Exactly four bytes stand for each pixel.
pub struct RGBAImage {
    pub data: Vec<u8>,
    pub width: u32,
    pub height: u32,
}

impl RGBAImage {
    /// The buffer holds one four-byte RGBA sample per pixel.
    pub open spec fn wf(&self) -> bool {
        self.data@.len() == self.width as int * self.height as int * 4
    }
}

/// What the in-process WEBP encoder can come to.
#[derive(Debug, PartialEq)]
pub enum LibWebPError {
    /// The encoder configuration could not be initialized.
    ConfigInit,
    /// The encoder configuration did not validate.
    ConfigValidate,
    /// The picture representation could not be initialized.
    Picture,
    /// Encoding failed, with the encoder's own error code.
    Encoding(i32),
    /// A dimension did not fit the encoder's integer range.
    TryFromIntError,
}

#[verifier::external_type_specification]
#[verifier::external_body]
pub struct ExImageError(image::ImageError);

/// What the WEBP encode stage as a whole can come to.
#[derive(Debug)]
pub enum Error {
    /// A file could not be read, created or written.
    Io(String),
    /// The image could not be decoded.
    Image(image::ImageError),
    /// The encoder itself failed.
    LibWebPError(LibWebPError),
    /// The external transcoder ended itself with a non-zero status.
    Exit(i32),
    /// The external transcoder was ended by a signal and left no status.
    Signal,
}

/// The RGBA image that decoding a given byte sequence yields: decoding
/// is a function of the bytes alone.
pub uninterp spec fn decoded_rgba_of(data: Seq<u8>) -> RGBAImage;

/// Whether the decoder accepts a given byte sequence: with the crate's
/// fixed limits, success too depends on the bytes alone.
pub uninterp spec fn rgba_decodes(data: Seq<u8>) -> bool;

/// Relies on the image crate's format-sniffing decoder and its RGBA
/// conversion: whether a byte sequence decodes depends on the bytes
/// alone, and a decoded image's buffer holds exactly four bytes per
/// pixel.
#[verifier::external_body]
fn decode_rgba(data: &Vec<u8>) -> (r: Result<RGBAImage, image::ImageError>)
    ensures
        r is Ok <==> rgba_decodes(data@),
        r matches Ok(img) ==> img == decoded_rgba_of(data@) && img.wf(),
{
    let decoded = image::load_from_memory(data)?;
    let width = decoded.width();
    let height = decoded.height();
    Ok(RGBAImage { data: decoded.into_rgba8().into_raw(), width, height })
}

/// Decodes the input bytes and computes the dimensions the encoder
/// rescales to: the requested box, absent sides taken from the decoded
/// size, fitted around the decoded size.  Exactly the byte sequences the
/// decoder accepts, with positive decoded dimensions, succeed; a decoded
/// image with a zero dimension cannot become an encoder picture and is
/// refused.
pub fn prepare_webp_image(data: &Vec<u8>, width: Option<u32>, height: Option<u32>) -> (r: Result<
    (RGBAImage, u32, u32),
    Error,
>)
    ensures
        r is Ok <==> rgba_decodes(data@) && decoded_rgba_of(data@).width > 0 && decoded_rgba_of(
            data@,
        ).height > 0,
        !rgba_decodes(data@) ==> (r matches Err(e) && e is Image),
        rgba_decodes(data@) && !(decoded_rgba_of(data@).width > 0 && decoded_rgba_of(
            data@,
        ).height > 0) ==> (r matches Err(e) && e matches Error::LibWebPError(l) && l is Picture),
        r matches Ok(p) ==> {
            &&& p.0 == decoded_rgba_of(data@)
            &&& p.0.wf()
            &&& p.0.width > 0
            &&& p.0.height > 0
            &&& (p.1 as int, p.2 as int) == target_spec(
                p.0.width as int,
                p.0.height as int,
                width,
                height,
            )
        },
{
    let img = match decode_rgba(data) {
        Ok(i) => i,
        Err(e) => {
            return Err(Error::Image(e));
        },
    };
    if img.width == 0 || img.height == 0 {
        return Err(Error::LibWebPError(LibWebPError::Picture));
    }
    let (target_width, target_height) = rescale_target(img.width, img.height, width, height);
    Ok((img, target_width, target_height))
}

/// The encoder mode for one conversion: with a quality the encoder runs
/// lossy at that quality, without one it runs lossless at full quality.
pub fn encode_settings(quality: Option<u32>) -> (r: (bool, u32))
    ensures
        match quality {
            Some(q) => r == (false, q),
            None => r == (true, 100u32),
        },
{
    match quality {
        Some(q) => (false, q),
        None => (true, 100),
    }
}

/// The dimensions the encoder rescales to: the requested box, absent
/// sides taken from the decoded size, fitted around the decoded size.
pub fn rescale_target(image_w: u32, image_h: u32, width: Option<u32>, height: Option<u32>) -> (r: (
    u32,
    u32,
))
    requires
        image_w > 0,
        image_h > 0,
    ensures
        (r.0 as int, r.1 as int) == target_spec(image_w as int, image_h as int, width, height),
{
    crate::utils::effective_target(image_w, image_h, width, height)
}

/// Plans one WEBP encode of the input path into the output path at the
/// configuration's dimensions and quality.
pub fn optimize<T: PathAccessor + Dimensions + Quality>(config: &T) -> (r: Result<Step, Error>)
    ensures
        r matches Ok(s) && is_webp_encode(
            s,
            config.spec_input_path(),
            config.spec_output_path(),
            config.spec_width(),
            config.spec_height(),
            config.spec_quality(),
        ),
{
    Ok(
        Step::WebpEncode {
            input: config.input_path().clone(),
            output: config.output_path().clone(),
            width: config.width(),
            height: config.height(),
            quality: config.quality(),
        },
    )
}

/// Plans one run of the external animated-GIF-to-WEBP transcoder on the
/// two paths; dimensions play no part at this stage.
pub fn optimize_gif<T: PathAccessor>(config: &T) -> (r: Result<Step, Error>)
    ensures
        r matches Ok(s) && is_gif_to_webp(s, config.spec_input_path(), config.spec_output_path()),
{
    Ok(
        Step::GifToWebp {
            input: config.input_path().clone(),
            output: config.output_path().clone(),
        },
    )
}

/// Maps the exit status of the external transcoder exactly as the GIF
/// optimizer's status is mapped: status zero is success, any other
/// status is `Exit` with that code, and a process that left no status
/// (it was ended by a signal) is `Signal`.
pub fn process_exit_code(code: Option<i32>) -> (r: Result<(), Error>)
    ensures
        match code {
            Some(c) => if c == 0 {
                r is Ok
            } else {
                r matches Err(e) && e matches Error::Exit(x) && x == c
            },
            None => r matches Err(e) && e is Signal,
        },
{
    match code {
        Some(0) => Ok(()),
        Some(code) => Err(Error::Exit(code)),
        None => Err(Error::Signal),
    }
}

/// The argument string handed to the external animated-GIF-to-WEBP
/// transcoder: the output path, a fixed quality of 75, the slowest
/// compression method, multi-threading, verbose output, then the input
/// path.
pub open spec fn transcode_args_spec(inp: Seq<char>, outp: Seq<char>) -> Seq<char> {
    "-o "@ + outp + " -q 75 -m 6 -mt -v "@ + inp
}

/// Builds the external transcoder's argument string for one conversion.
pub fn transcode_args(input: &str, output: &str) -> (r: String)
    ensures
        r@ == transcode_args_spec(input@, output@),
{
    let mut result = String::new();
    result.append("-o ");
    result.append(output);
    result.append(" -q 75 -m 6 -mt -v ");
    result.append(input);
    proof {
        assert(result@ =~= transcode_args_spec(input@, output@));
    }
    result
}

} // verus!
