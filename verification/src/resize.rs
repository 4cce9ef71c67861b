//! Resizing a still emoji image to a size tier.
//!
//! For `Auto` the input bytes are forwarded untouched; for every other tier
//! the bytes are decoded to RGBA8, resampled with premultiplied alpha to the
//! tier's exact fixed dimensions, and re-encoded losslessly as PNG.

use vstd::prelude::*;
use vstd::string::StringExecFns;

use crate::asset::{AssetFormat, ImageAsset};
use crate::img_codec::{decode_rgba, decoded_rgba_of, encode_png, png_encoding_of, resize_rgba,
    resized_rgba_of};
use crate::sizing::{spec_tier_dimensions, ImageSize};

verus! {

/// Why a resize call failed.
#[derive(Debug, Clone, Copy, PartialEq, Eq, Structural)]
pub enum ResizeError {
    /// The input bytes did not decode as a still image.
    UnsupportedOrCorruptImage,
    /// The decoded raster was degenerate or too large to resample, or the
    /// resampler rejected its buffer.
    ResampleFailed,
    /// The resampled raster could not be encoded as PNG.
    StillEncodeFailed,
}

/// What a resize to fixed dimensions `tw` x `th` must return for the input
/// bytes: each stage's failure is reported as its own error, and on success
/// the asset holds exactly the PNG encoding of the resampled `tw` x `th`
/// raster under the fixed filename `resized.png`.
pub open spec fn resize_outcome_ok(
    input: Seq<u8>,
    tw: u32,
    th: u32,
    r: Result<ImageAsset, ResizeError>,
) -> bool {
    match decoded_rgba_of(input) {
        None => r == Err::<ImageAsset, ResizeError>(ResizeError::UnsupportedOrCorruptImage),
        Some(d) => if d.0 == 0 || d.1 == 0 || d.0 * d.1 > u32::MAX {
            r == Err::<ImageAsset, ResizeError>(ResizeError::ResampleFailed)
        } else {
            ||| r == Err::<ImageAsset, ResizeError>(ResizeError::ResampleFailed)
            ||| match png_encoding_of(resized_rgba_of(d.2, d.0, d.1, tw, th), tw, th) {
                None => r == Err::<ImageAsset, ResizeError>(ResizeError::StillEncodeFailed),
                Some(b) => r matches Ok(a) && a.bytes@ == b && a.format == AssetFormat::Png
                    && a.filename@ == "resized.png"@,
            }
        },
    }
}

/// Decodes, resamples to exactly `tw` x `th`, and re-encodes as PNG.
fn resize_to(img_bytes: Vec<u8>, tw: u32, th: u32) -> (r: Result<ImageAsset, ResizeError>)
    requires
        0 < tw,
        0 < th,
        tw * th <= u32::MAX,
    ensures
        resize_outcome_ok(img_bytes@, tw, th, r),
{
    let (w, h, px) = match decode_rgba(img_bytes.as_slice()) {
        Err(()) => {
            return Err(ResizeError::UnsupportedOrCorruptImage);
        },
        Ok(d) => d,
    };
    if w == 0 || h == 0 {
        return Err(ResizeError::ResampleFailed);
    }
    proof {
        assert((w as int) * (h as int) <= (u32::MAX as int) * (u32::MAX as int))
            by (nonlinear_arith)
            requires
                w <= u32::MAX,
                h <= u32::MAX,
        ;
    }
    if (w as u64) * (h as u64) > (u32::MAX as u64) {
        return Err(ResizeError::ResampleFailed);
    }
    let rp = match resize_rgba(px, w, h, tw, th) {
        Err(()) => {
            return Err(ResizeError::ResampleFailed);
        },
        Ok(v) => v,
    };
    let bytes = match encode_png(rp.as_slice(), tw, th) {
        Err(()) => {
            return Err(ResizeError::StillEncodeFailed);
        },
        Ok(v) => v,
    };
    Ok(ImageAsset { bytes, format: AssetFormat::Png, filename: String::from_str("resized.png") })
}

/// Resizes a still image to a size tier.
///
/// `Auto` performs no transform: the input bytes come back unchanged under
/// their source format tag, with an empty filename (delivered by reference).
/// Every other tier yields, on success, the PNG encoding of the raster
/// resampled to exactly the tier's fixed width and height, whatever the input
/// aspect ratio; each stage's failure is reported, never a panic.
pub fn get_resized_image(img_bytes: Vec<u8>, source_format: AssetFormat, img_size: &ImageSize)
    -> (r: Result<ImageAsset, ResizeError>)
    ensures
        match spec_tier_dimensions(*img_size) {
            None => r matches Ok(a) && a.bytes == img_bytes && a.format == source_format
                && a.filename@ == Seq::<char>::empty(),
            Some(dims) => resize_outcome_ok(img_bytes@, dims.0, dims.1, r),
        },
{
    match img_size.tier_dimensions() {
        None => Ok(
            ImageAsset { bytes: img_bytes, format: source_format, filename: String::new() },
        ),
        Some((tw, th)) => resize_to(img_bytes, tw, th),
    }
}

} // verus!
