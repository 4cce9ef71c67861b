//! Trusted bridges to the image codec crates.
//!
//! Each executable function here wraps calls into the `image` or
//! `fast_image_resize` crate; its contract states what those crates' sources
//! show and nothing more. Results that are functions of the arguments alone
//! are given uninterpreted names, and the verified pipeline stages speak of
//! those names.

use vstd::prelude::*;

use fast_image_resize as fr;
use fast_image_resize::{FilterType, MulDiv, PixelType, ResizeAlg, Resizer};
use image::codecs::gif::{GifEncoder, Repeat};
use image::codecs::png::PngEncoder;
use image::codecs::webp::WebPDecoder;
use image::{AnimationDecoder, ColorType, ImageDecoder, ImageEncoder};
use std::io::Cursor;
use std::num::NonZeroU32;

verus! {

/// RGBA8 decode of an image byte stream: dimensions and raw pixels, a pure
/// function of the bytes; `None` when the stream does not decode.
pub uninterp spec fn decoded_rgba_of(bytes: Seq<u8>) -> Option<(u32, u32, Seq<u8>)>;

/// Relies on image::load_from_memory and DynamicImage::to_rgba8: decoding is
/// deterministic in the bytes, and the RGBA8 buffer holds exactly 4 bytes per
/// pixel of the decoded dimensions.
#[verifier::external_body]
pub(crate) fn decode_rgba(bytes: &[u8]) -> (r: Result<(u32, u32, Vec<u8>), ()>)
    ensures
        r is Ok <==> decoded_rgba_of(bytes@) is Some,
        r matches Ok(d) ==> ({
            &&& decoded_rgba_of(bytes@) == Some((d.0, d.1, d.2@))
            &&& d.2@.len() == 4 * (d.0 * d.1)
        }),
{
    match image::load_from_memory(bytes) {
        Ok(img) => {
            let (w, h) = (img.width(), img.height());
            Ok((w, h, img.to_rgba8().into_raw()))
        },
        Err(_) => Err(()),
    }
}

/// Alpha-premultiplied bilinear resample of an RGBA8 raster to new
/// dimensions, a pure function of the pixels and all four dimensions.
pub uninterp spec fn resized_rgba_of(
    px: Seq<u8>,
    src_w: u32,
    src_h: u32,
    dst_w: u32,
    dst_h: u32,
) -> Seq<u8>;

/// Relies on fast_image_resize: `MulDiv` premultiplies and un-premultiplies
/// the alpha channel, and `Resizer` with a bilinear convolution fills a
/// `dst_w` x `dst_h` U8x4 image (4 bytes per pixel); on U8x4 views all three
/// return `Ok` unconditionally, so only the buffer handover can fail. The
/// crate's own tests pin the convolution output to identical bytes across
/// CPU feature levels, so the result depends on the arguments alone. The
/// dimension bounds keep the crate's internal `u32` pixel-count products
/// from overflowing.
#[verifier::external_body]
pub(crate) fn resize_rgba(px: Vec<u8>, src_w: u32, src_h: u32, dst_w: u32, dst_h: u32) -> (r:
    Result<Vec<u8>, ()>)
    requires
        0 < src_w,
        0 < src_h,
        0 < dst_w,
        0 < dst_h,
        src_w * src_h <= u32::MAX,
        dst_w * dst_h <= u32::MAX,
        px@.len() == 4 * (src_w * src_h),
    ensures
        r matches Ok(out) ==> ({
            &&& out@ == resized_rgba_of(px@, src_w, src_h, dst_w, dst_h)
            &&& out@.len() == 4 * (dst_w * dst_h)
        }),
{
    let sw = NonZeroU32::new(src_w).unwrap();
    let sh = NonZeroU32::new(src_h).unwrap();
    let dw = NonZeroU32::new(dst_w).unwrap();
    let dh = NonZeroU32::new(dst_h).unwrap();
    let mut src = fr::Image::from_vec_u8(sw, sh, px, PixelType::U8x4).or(Err(()))?;
    let mul_div = MulDiv::default();
    mul_div.multiply_alpha_inplace(&mut src.view_mut()).unwrap();
    let mut dst = fr::Image::new(dw, dh, PixelType::U8x4);
    Resizer::new(ResizeAlg::Convolution(FilterType::Bilinear)).resize(&src.view(), &mut dst.view_mut()).unwrap();
    mul_div.divide_alpha_inplace(&mut dst.view_mut()).unwrap();
    Ok(dst.into_vec())
}

/// PNG encoding of an RGBA8 raster, a pure function of pixels and dimensions;
/// `None` when the encoder rejects the raster.
pub uninterp spec fn png_encoding_of(px: Seq<u8>, w: u32, h: u32) -> Option<Seq<u8>>;

/// Relies on image::codecs::png::PngEncoder::write_image with RGBA8 pixels:
/// it writes the deterministic encoding into the output vector, and it
/// asserts that the buffer holds exactly 4 bytes per pixel, hence the
/// precondition.
#[verifier::external_body]
pub(crate) fn encode_png(px: &[u8], w: u32, h: u32) -> (r: Result<Vec<u8>, ()>)
    requires
        px@.len() == 4 * (w * h),
    ensures
        r is Ok <==> png_encoding_of(px@, w, h) is Some,
        r matches Ok(out) ==> png_encoding_of(px@, w, h) == Some(out@),
{
    let mut out: Vec<u8> = Vec::new();
    let enc = PngEncoder::new(&mut out);
    match enc.write_image(px, w, h, ColorType::Rgba8) {
        Ok(()) => Ok(out),
        Err(_) => Err(()),
    }
}

/// WebP probe of a byte stream: animation flag and canvas dimensions, a pure
/// function of the bytes; `None` when the stream is not a decodable WebP.
pub uninterp spec fn webp_probe_of(bytes: Seq<u8>) -> Option<(bool, u32, u32)>;

/// Relies on image::codecs::webp::WebPDecoder: `new` parses the stream, and
/// `has_animation` and `dimensions` report the animation flag and the canvas
/// size; all three are deterministic in the bytes.
#[verifier::external_body]
pub(crate) fn webp_probe(bytes: &[u8]) -> (r: Result<(bool, u32, u32), ()>)
    ensures
        r is Ok <==> webp_probe_of(bytes@) is Some,
        r matches Ok(p) ==> webp_probe_of(bytes@) == Some(p),
{
    match WebPDecoder::new(Cursor::new(bytes)) {
        Ok(dec) => {
            let (w, h) = dec.dimensions();
            Ok((dec.has_animation(), w, h))
        },
        Err(_) => Err(()),
    }
}

/// The step of the animated-WebP-to-GIF pipeline that failed.
#[derive(Debug, Clone, Copy, PartialEq, Eq, Structural)]
pub enum GifStepFailure {
    /// The WebP stream or one of its frames did not decode.
    FrameDecode,
    /// The loop-repeat flag could not be set on the GIF encoder.
    RepeatFlag,
    /// A frame could not be encoded into the GIF stream.
    FrameEncode,
}

/// Looping-GIF transcoding of a WebP stream, a pure function of the bytes:
/// the GIF bytes when the pipeline accepts the stream, `None` when it fails.
pub uninterp spec fn gif_transcoding_of(bytes: Seq<u8>) -> Option<Seq<u8>>;

/// The step at which the GIF pipeline fails a stream it does not accept;
/// meaningful exactly when [`gif_transcoding_of`] is `None`.
pub uninterp spec fn gif_failure_of(bytes: Seq<u8>) -> GifStepFailure;

/// Relies on image::codecs::webp::WebPDecoder (frame decoding) and
/// image::codecs::gif::GifEncoder (`set_repeat` with `Repeat::Infinite`, then
/// `encode_frames`). The whole outcome is deterministic in the bytes: the
/// decoder and encoder work on in-memory buffers, and `set_repeat` before the
/// first frame only records the flag.
#[verifier::external_body]
pub(crate) fn webp_to_gif(bytes: &[u8]) -> (r: Result<Vec<u8>, GifStepFailure>)
    ensures
        r is Ok <==> gif_transcoding_of(bytes@) is Some,
        r matches Ok(out) ==> gif_transcoding_of(bytes@) == Some(out@),
        r matches Err(e) ==> e == gif_failure_of(bytes@),
{
    let dec = WebPDecoder::new(Cursor::new(bytes)).map_err(|_| GifStepFailure::FrameDecode)?;
    let frames = dec.into_frames().collect_frames().map_err(|_| GifStepFailure::FrameDecode)?;
    let mut out: Vec<u8> = Vec::new();
    let mut enc = GifEncoder::new(&mut out);
    enc.set_repeat(Repeat::Infinite).map_err(|_| GifStepFailure::RepeatFlag)?;
    enc.encode_frames(frames).map_err(|_| GifStepFailure::FrameEncode)?;
    drop(enc);
    Ok(out)
}

} // verus!
