//! PNG to AVIF: decode the PNG, normalize its colour layout to RGBA,
//! resample to the fitted dimensions, and encode as AVIF.  Everything up
//! to the AVIF encoder itself is byte-level work done here; the encoder
//! runs in the unverified front end.

use vstd::prelude::*;

verus! {

use crate::{Dimensions, PathAccessor, Quality};
use crate::plan::{is_avif_encode, Step};
use crate::utils::effective_target;
use crate::utils::target_spec;
use crate::utils::webp::RGBAImage;

#[verifier::external_type_specification]
#[verifier::external_body]
pub struct ExDecodingError(png::DecodingError);

/// Why the resampler refused to run, one case per failure the resize
/// library reports.
#[derive(Debug, Clone, Copy, PartialEq, Eq, Structural)]
pub enum ResizeFailure {
    /// A buffer could not be allocated.
    OutOfMemory,
    /// A dimension was zero or the buffers did not match the dimensions.
    InvalidParameters,
}

/// The colour layout a decoded PNG frame can have.
#[derive(Debug, Clone, Copy, PartialEq, Eq, Structural)]
pub enum ColorKind {
    Grayscale,
    Rgb,
    Indexed,
    GrayscaleAlpha,
    Rgba,
}

/// One decoded PNG frame: its dimensions, its colour layout and its
/// packed 8-bit samples.
pub struct PngFrame {
    pub width: u32,
    pub height: u32,
    pub color: ColorKind,
    pub data: Vec<u8>,
}

/// What the PNG-to-AVIF pipeline can come to.
#[derive(Debug)]
pub enum Error {
    /// A file could not be read or written.
    Io(String),
    /// The PNG could not be decoded.
    Decoding(png::DecodingError),
    /// The decoded frame has a colour layout this pipeline does not take.
    UnsupportedColorType(ColorKind),
    /// The resampler refused the dimensions or ran out of memory.
    Resize(ResizeFailure),
    /// The AVIF encoder itself failed, with its message.
    Encoding(String),
}

/// The frame that decoding a given byte sequence yields: decoding is a
/// function of the bytes alone.
pub uninterp spec fn png_frame_of(data: Seq<u8>) -> PngFrame;

/// Whether the decoder accepts a given byte sequence: with the crate's
/// fixed limits, success too depends on the bytes alone.
pub uninterp spec fn png_decodes(data: Seq<u8>) -> bool;

/// Relies on png's streaming decoder, with every layout expanded to
/// 8-bit samples: whether a byte sequence decodes depends on the bytes
/// alone; a decoded frame has positive dimensions, its buffer holds one
/// sample per channel per pixel (three channels for RGB, four for RGBA),
/// and the buffer fits the machine's address space.
#[verifier::external_body]
fn decode_png(data: &Vec<u8>) -> (r: Result<PngFrame, png::DecodingError>)
    ensures
        r is Ok <==> png_decodes(data@),
        r matches Ok(f) ==> {
            &&& f == png_frame_of(data@)
            &&& f.width > 0
            &&& f.height > 0
            &&& f.data@.len() <= 0x7fff_ffff_ffff_ffff
            &&& (f.color == ColorKind::Rgb ==> f.data@.len() == f.width as int * f.height as int
                * 3)
            &&& (f.color == ColorKind::Rgba ==> f.data@.len() == f.width as int * f.height as int
                * 4)
        },
{
    let mut decoder = png::Decoder::new(std::io::Cursor::new(&data[..]));
    decoder.set_transformations(png::Transformations::normalize_to_color8());
    let mut reader = decoder.read_info()?;
    let size = reader.output_buffer_size().ok_or(png::DecodingError::LimitsExceeded)?;
    let mut buf = vec![0u8; size];
    let info = reader.next_frame(&mut buf)?;
    buf.truncate(info.buffer_size());
    let color = match info.color_type {
        png::ColorType::Grayscale => ColorKind::Grayscale,
        png::ColorType::Rgb => ColorKind::Rgb,
        png::ColorType::Indexed => ColorKind::Indexed,
        png::ColorType::GrayscaleAlpha => ColorKind::GrayscaleAlpha,
        png::ColorType::Rgba => ColorKind::Rgba,
    };
    Ok(PngFrame { width: info.width, height: info.height, color, data: buf })
}

/// Relies on resize's Lanczos3 resampler over RGBA 8-bit pixels: on
/// success the returned buffer holds exactly the destination pixels.
#[verifier::external_body]
fn resample_rgba(src: &Vec<u8>, src_w: u32, src_h: u32, dst_w: u32, dst_h: u32) -> (r: Result<
    Vec<u8>,
    ResizeFailure,
>)
    requires
        src@.len() == src_w as int * src_h as int * 4,
        src_w > 0,
        src_h > 0,
    ensures
        r matches Ok(v) ==> v@.len() == dst_w as int * dst_h as int * 4,
{
    let fail = |e: resize::Error| match e {
        resize::Error::OutOfMemory => ResizeFailure::OutOfMemory,
        resize::Error::InvalidParameters => ResizeFailure::InvalidParameters,
    };
    let len = (dst_w as usize)
        .checked_mul(dst_h as usize)
        .and_then(|n| n.checked_mul(4))
        .ok_or(ResizeFailure::OutOfMemory)?;
    let mut dst = vec![0u8; len];
    let mut resizer = resize::new(src_w as usize, src_h as usize, dst_w as usize, dst_h as usize,
        resize::Pixel::RGBA8, resize::Type::Lanczos3).map_err(fail)?;
    resizer.resize(rgb::FromSlice::as_rgba(&src[..]), rgb::FromSlice::as_rgba_mut(&mut dst[..]))
        .map_err(fail)?;
    Ok(dst)
}

/// Packed RGB samples widened to RGBA: every pixel keeps its three
/// channels and gains a fully opaque alpha value.
pub open spec fn rgba_of_rgb(b: Seq<u8>) -> Seq<u8> {
    Seq::new(
        b.len() / 3 * 4,
        |k: int|
            if k % 4 == 3 {
                255u8
            } else {
                b[k / 4 * 3 + k % 4]
            },
    )
}

/// Widens packed RGB samples to RGBA by giving every pixel a fully
/// opaque alpha channel.
pub fn expand_rgb(bytes: &Vec<u8>) -> (r: Vec<u8>)
    requires
        bytes@.len() % 3 == 0,
    ensures
        r@ == rgba_of_rgb(bytes@),
{
    let n = bytes.len() / 3;
    proof {
        assert(bytes@.len() == 3 * n) by (nonlinear_arith)
            requires
                bytes@.len() % 3 == 0,
                n == bytes@.len() / 3,
        ;
    }
    let mut r: Vec<u8> = Vec::new();
    let mut i: usize = 0;
    while i < n
        invariant
            0 <= i <= n,
            n == bytes@.len() / 3,
            bytes@.len() == 3 * n,
            bytes@.len() <= usize::MAX,
            r@ == rgba_of_rgb(bytes@).subrange(0, 4 * i),
        decreases n - i,
    {
        let base = 3 * i;
        r.push(bytes[base]);
        r.push(bytes[base + 1]);
        r.push(bytes[base + 2]);
        r.push(255);
        proof {
            assert(r@ =~= rgba_of_rgb(bytes@).subrange(0, 4 * (i + 1)));
        }
        i = i + 1;
    }
    proof {
        assert(rgba_of_rgb(bytes@).subrange(0, 4 * n as int) =~= rgba_of_rgb(bytes@));
    }
    r
}

/// Decodes a PNG from bytes, normalizes its layout to RGBA and resamples
/// it to the dimensions that fit the requested box around the decoded
/// size.  RGB frames get an opaque alpha channel; any other non-RGBA
/// layout is refused as unsupported.  A byte sequence the decoder
/// accepts, in an RGB or RGBA layout, fails only if the resampler does
/// (it may run out of memory); no other error comes out of this
/// function.
pub fn prepare_avif_image(data: &Vec<u8>, width: Option<u32>, height: Option<u32>) -> (r: Result<
    RGBAImage,
    Error,
>)
    ensures
        !png_decodes(data@) ==> (r matches Err(e) && e is Decoding),
        png_decodes(data@) && !(png_frame_of(data@).color == ColorKind::Rgb || png_frame_of(
            data@,
        ).color == ColorKind::Rgba) ==> (r matches Err(e)
            && e matches Error::UnsupportedColorType(c) && c == png_frame_of(data@).color),
        png_decodes(data@) && (png_frame_of(data@).color == ColorKind::Rgb || png_frame_of(
            data@,
        ).color == ColorKind::Rgba) ==> r is Ok || (r matches Err(e) && e is Resize),
        r matches Err(e) ==> e is Decoding || e is UnsupportedColorType || e is Resize,
        r matches Ok(img) ==> img.wf() && (img.width as int, img.height as int) == target_spec(
            png_frame_of(data@).width as int,
            png_frame_of(data@).height as int,
            width,
            height,
        ),
{
    let frame = match decode_png(data) {
        Ok(f) => f,
        Err(e) => {
            return Err(Error::Decoding(e));
        },
    };
    let frame_width = frame.width;
    let frame_height = frame.height;
    let rgba: Vec<u8> = if frame.color == ColorKind::Rgb {
        proof {
            vstd::arithmetic::div_mod::lemma_mod_multiples_basic(
                frame.width as int * frame.height as int,
                3,
            );
            vstd::arithmetic::div_mod::lemma_div_by_multiple(
                frame.width as int * frame.height as int,
                3,
            );
        }
        expand_rgb(&frame.data)
    } else if frame.color == ColorKind::Rgba {
        frame.data
    } else {
        return Err(Error::UnsupportedColorType(frame.color));
    };
    let (target_width, target_height) = effective_target(frame_width, frame_height, width, height);
    let out = match resample_rgba(&rgba, frame_width, frame_height, target_width, target_height) {
        Ok(v) => v,
        Err(e) => {
            return Err(Error::Resize(e));
        },
    };
    Ok(RGBAImage { data: out, width: target_width, height: target_height })
}

/// The PNG-to-AVIF plan: one AVIF encode on the two paths at the
/// requested dimensions and quality.
pub open spec fn plan_spec(
    inp: Seq<char>,
    outp: Seq<char>,
    w: Option<u32>,
    h: Option<u32>,
    q: Option<u32>,
    steps: Seq<Step>,
) -> bool {
    steps.len() == 1 && is_avif_encode(steps[0], inp, outp, w, h, q)
}

/// Plans the PNG-to-AVIF conversion.
pub fn convert<T: PathAccessor + Dimensions + Quality>(config: &T) -> (r: Result<Vec<Step>, Error>)
    ensures
        r matches Ok(steps) && plan_spec(
            config.spec_input_path(),
            config.spec_output_path(),
            config.spec_width(),
            config.spec_height(),
            config.spec_quality(),
            steps@,
        ),
{
    let mut steps: Vec<Step> = Vec::new();
    steps.push(
        Step::AvifEncode {
            input: config.input_path().clone(),
            output: config.output_path().clone(),
            width: config.width(),
            height: config.height(),
            quality: config.quality(),
        },
    );
    Ok(steps)
}

} // verus!
