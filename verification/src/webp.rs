//! Converting WebP attachments: animated input becomes a looping GIF, static
//! input becomes PNG on explicit request only, and byte-size ceilings guard
//! both ends of the conversion.

use vstd::prelude::*;
use vstd::string::StringExecFns;

use crate::asset::{AssetFormat, ImageAsset};
use crate::img_codec::{decode_rgba, decoded_rgba_of, encode_png, png_encoding_of,
    gif_failure_of, gif_transcoding_of, webp_probe, webp_probe_of, webp_to_gif, GifStepFailure};
use crate::text::{spec_ends_with, str_ends_with};

verus! {

broadcast use vstd::string::group_string_axioms;

/// Ceiling in bytes on the raw decoded pixel data (4 bytes per canvas pixel)
/// of a WebP accepted for conversion.
pub const DECODED_SIZE_CEILING: u64 = 2 * 1024 * 1024;

/// Ceiling in bytes on the compressed input attachment accepted for
/// conversion.
pub const INPUT_SIZE_CEILING: u64 = 10 * 1024 * 1024;

/// Why a WebP conversion failed, or why none was performed.
#[derive(Debug)]
pub enum WebPTransferError {
    /// The image could not be fetched from the chat platform's CDN.
    GetRequestFailed,
    /// The byte stream did not decode as WebP.
    DecodingWebPError,
    /// A frame could not be encoded into the GIF stream.
    GifEncodingError,
    /// The GIF loop-repeat flag could not be set.
    SetRepeatError,
    /// The decoded pixel data exceeds [`DECODED_SIZE_CEILING`].
    SizeLimitExceeded,
    /// Static input under the automatic path needs no conversion.
    AutoPngNotNeeded,
    /// The re-encoding of a static frame as PNG failed.
    Mollu,
}

/// The user-facing message for each conversion error.
pub open spec fn error_message_of(e: WebPTransferError) -> Seq<char> {
    match e {
        WebPTransferError::GetRequestFailed => "디스코드 서버로부터 이미지를 가져오는 데 실패했습니다."@,
        WebPTransferError::DecodingWebPError => "WebP 이미지를 디코딩하는데 실패했습니다."@,
        WebPTransferError::GifEncodingError => "WebP 이미지를 Gif 이미지로 인코딩하는데 실패했습니다."@,
        WebPTransferError::SetRepeatError => "Gif 반복 설정을 하는데 실패했습니다."@,
        WebPTransferError::SizeLimitExceeded => "변환하려는 WebP의 크기가 너무 큽니다. 2MB 이하의 WebP 이미지만 지원합니다."@,
        WebPTransferError::AutoPngNotNeeded => "정적 webp는 지원하니까 굳이..?"@,
        WebPTransferError::Mollu => "에러났는데 뭔지모르겠노"@,
    }
}

impl WebPTransferError {
    /// Renders the user-facing message for this error.
    pub fn get_error_message(&self) -> (r: String)
        ensures
            r@ == error_message_of(*self),
    {
        match self {
            Self::GetRequestFailed => "디스코드 서버로부터 이미지를 가져오는 데 실패했습니다.".to_string(),
            Self::DecodingWebPError => "WebP 이미지를 디코딩하는데 실패했습니다.".to_string(),
            Self::GifEncodingError => "WebP 이미지를 Gif 이미지로 인코딩하는데 실패했습니다.".to_string(),
            Self::SetRepeatError => "Gif 반복 설정을 하는데 실패했습니다.".to_string(),
            Self::SizeLimitExceeded => "변환하려는 WebP의 크기가 너무 큽니다. 2MB 이하의 WebP 이미지만 지원합니다.".to_string(),
            Self::AutoPngNotNeeded => "정적 webp는 지원하니까 굳이..?".to_string(),
            Self::Mollu => "에러났는데 뭔지모르겠노".to_string(),
        }
    }
}

/// The conversion error each failing GIF-pipeline step reports.
pub open spec fn gif_step_error(step: GifStepFailure) -> WebPTransferError {
    match step {
        GifStepFailure::FrameDecode => WebPTransferError::DecodingWebPError,
        GifStepFailure::RepeatFlag => WebPTransferError::SetRepeatError,
        GifStepFailure::FrameEncode => WebPTransferError::GifEncodingError,
    }
}

/// What a conversion must return for the input bytes.
///
/// Every branch is pinned exactly: probe failure, the size ceiling, the
/// looping GIF (or the failing pipeline step's own error) for animated input,
/// the automatic path's refusal of static input, and the PNG re-encoding on
/// explicit request.
pub open spec fn webp_transfer_outcome_ok(
    input: Seq<u8>,
    for_autosend: bool,
    r: Result<ImageAsset, WebPTransferError>,
) -> bool {
    match webp_probe_of(input) {
        None => r == Err::<ImageAsset, WebPTransferError>(WebPTransferError::DecodingWebPError),
        Some(p) => if 4 * (p.1 * p.2) > DECODED_SIZE_CEILING {
            r == Err::<ImageAsset, WebPTransferError>(WebPTransferError::SizeLimitExceeded)
        } else if p.0 {
            match gif_transcoding_of(input) {
                Some(g) => r matches Ok(a) && a.bytes@ == g && a.format == AssetFormat::Gif
                    && a.filename@ == "transfered.gif"@,
                None => r == Err::<ImageAsset, WebPTransferError>(
                    gif_step_error(gif_failure_of(input)),
                ),
            }
        } else if for_autosend {
            r == Err::<ImageAsset, WebPTransferError>(WebPTransferError::AutoPngNotNeeded)
        } else {
            match decoded_rgba_of(input) {
                None => r == Err::<ImageAsset, WebPTransferError>(
                    WebPTransferError::DecodingWebPError,
                ),
                Some(d) => match png_encoding_of(d.2, d.0, d.1) {
                    None => r == Err::<ImageAsset, WebPTransferError>(WebPTransferError::Mollu),
                    Some(b) => r matches Ok(a) && a.bytes@ == b && a.format == AssetFormat::Png
                        && a.filename@ == "transfered.png"@,
                },
            }
        },
    }
}

/// Converts a WebP byte stream.
///
/// Animated input is re-encoded as a GIF that loops forever, under the fixed
/// filename `transfered.gif`. Static input needs no conversion on the
/// automatic path (`for_autosend`), and is re-encoded as `transfered.png` on
/// explicit request. The raw decoded-size ceiling is enforced before any
/// encoder runs. Every failure is a reported error, never a panic.
pub fn webp_transfer(bytes: &[u8], for_autosend: bool) -> (r: Result<
    ImageAsset,
    WebPTransferError,
>)
    ensures
        webp_transfer_outcome_ok(bytes@, for_autosend, r),
{
    let (animated, w, h) = match webp_probe(bytes) {
        Err(()) => {
            return Err(WebPTransferError::DecodingWebPError);
        },
        Ok(p) => p,
    };
    proof {
        assert((w as int) * (h as int) <= (u32::MAX as int) * (u32::MAX as int))
            by (nonlinear_arith)
            requires
                w <= u32::MAX,
                h <= u32::MAX,
        ;
    }
    let pixel_count = (w as u64) * (h as u64);
    if pixel_count > DECODED_SIZE_CEILING / 4 {
        return Err(WebPTransferError::SizeLimitExceeded);
    }
    if animated {
        let gif = match webp_to_gif(bytes) {
            Err(GifStepFailure::FrameDecode) => {
                return Err(WebPTransferError::DecodingWebPError);
            },
            Err(GifStepFailure::RepeatFlag) => {
                return Err(WebPTransferError::SetRepeatError);
            },
            Err(GifStepFailure::FrameEncode) => {
                return Err(WebPTransferError::GifEncodingError);
            },
            Ok(v) => v,
        };
        return Ok(
            ImageAsset {
                bytes: gif,
                format: AssetFormat::Gif,
                filename: String::from_str("transfered.gif"),
            },
        );
    }
    if for_autosend {
        return Err(WebPTransferError::AutoPngNotNeeded);
    }
    let (dw, dh, px) = match decode_rgba(bytes) {
        Err(()) => {
            return Err(WebPTransferError::DecodingWebPError);
        },
        Ok(d) => d,
    };
    let png = match encode_png(px.as_slice(), dw, dh) {
        Err(()) => {
            return Err(WebPTransferError::Mollu);
        },
        Ok(v) => v,
    };
    Ok(
        ImageAsset {
            bytes: png,
            format: AssetFormat::Png,
            filename: String::from_str("transfered.png"),
        },
    )
}

/// Whether an attachment URL names a WebP file.
pub fn is_webp_url(url: &str) -> (r: bool)
    ensures
        r == spec_ends_with(url@, ".webp"@),
{
    str_ends_with(url, ".webp")
}

/// Boost level of a guild; it scales the output ceiling of the conversion
/// command.
#[derive(Debug, Clone, Copy, PartialEq, Eq, Structural)]
pub enum PremiumTier {
    Tier0,
    Tier1,
    Tier2,
    Tier3,
}

/// Ceiling in bytes on a converted image delivered to a guild of the given
/// boost level.
pub open spec fn spec_max_output_bytes(t: PremiumTier) -> u64 {
    match t {
        PremiumTier::Tier3 => (50 * 1024 * 1024) as u64,
        PremiumTier::Tier2 => (25 * 1024 * 1024) as u64,
        _ => (10 * 1024 * 1024) as u64,
    }
}

/// The output ceiling in bytes for a guild of the given boost level.
pub fn max_output_bytes(t: &PremiumTier) -> (r: u64)
    ensures
        r == spec_max_output_bytes(*t),
{
    match t {
        PremiumTier::Tier3 => 50u64 * 1024 * 1024,
        PremiumTier::Tier2 => 25u64 * 1024 * 1024,
        _ => 10u64 * 1024 * 1024,
    }
}

/// Whether a converted asset may be delivered to a guild of the given boost
/// level; an oversized one is discarded and reported instead.
pub fn output_fits(asset: &ImageAsset, t: &PremiumTier) -> (r: bool)
    ensures
        r == (asset.bytes@.len() <= spec_max_output_bytes(*t)),
{
    let len = asset.byte_len();
    (len as u64) <= max_output_bytes(t)
}

/// Whether an attachment's compressed size is accepted for conversion.
pub fn input_size_ok(size: u64) -> (r: bool)
    ensures
        r == (size <= INPUT_SIZE_CEILING),
{
    size <= INPUT_SIZE_CEILING
}

/// Law: a decodable static WebP within the size ceiling is never converted on
/// the automatic path; the outcome is exactly `AutoPngNotNeeded`.
pub proof fn lemma_static_autosend_not_needed(
    input: Seq<u8>,
    r: Result<ImageAsset, WebPTransferError>,
)
    requires
        webp_transfer_outcome_ok(input, true, r),
        webp_probe_of(input) matches Some(p) && !p.0 && 4 * (p.1 * p.2) <= DECODED_SIZE_CEILING,
    ensures
        r == Err::<ImageAsset, WebPTransferError>(WebPTransferError::AutoPngNotNeeded),
{
}

/// Law: a decodable WebP whose raw decoded size exceeds the ceiling is
/// rejected as `SizeLimitExceeded`, on both paths, before any encoder runs.
pub proof fn lemma_oversized_webp_rejected(
    input: Seq<u8>,
    for_autosend: bool,
    r: Result<ImageAsset, WebPTransferError>,
)
    requires
        webp_transfer_outcome_ok(input, for_autosend, r),
        webp_probe_of(input) matches Some(p) && 4 * (p.1 * p.2) > DECODED_SIZE_CEILING,
    ensures
        r == Err::<ImageAsset, WebPTransferError>(WebPTransferError::SizeLimitExceeded),
{
}

} // verus!
