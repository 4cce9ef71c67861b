use image::codecs::webp::WebPEncoder;
use scene_bot::asset::AssetFormat;
use scene_bot::webp::{
    input_size_ok, is_webp_url, max_output_bytes, output_fits, webp_transfer, PremiumTier,
    WebPTransferError, DECODED_SIZE_CEILING, INPUT_SIZE_CEILING,
};

fn static_webp(w: u32, h: u32) -> Vec<u8> {
    let data = vec![128u8; (w * h * 4) as usize];
    let mut buf = Vec::new();
    WebPEncoder::new_lossless(&mut buf)
        .encode(&data, w, h, image::ColorType::Rgba8)
        .unwrap();
    buf
}

fn le24(v: u32) -> [u8; 3] {
    [(v & 0xff) as u8, ((v >> 8) & 0xff) as u8, ((v >> 16) & 0xff) as u8]
}

fn push_chunk(out: &mut Vec<u8>, fourcc: &[u8; 4], payload: &[u8]) {
    out.extend_from_slice(fourcc);
    out.extend_from_slice(&(payload.len() as u32).to_le_bytes());
    out.extend_from_slice(payload);
    if payload.len() % 2 == 1 {
        out.push(0);
    }
}

/// The bare VP8L chunk payload of a freshly encoded static lossless WebP.
fn vp8l_payload(w: u32, h: u32) -> Vec<u8> {
    let stat = static_webp(w, h);
    assert_eq!(&stat[12..16], b"VP8L");
    let len = u32::from_le_bytes([stat[16], stat[17], stat[18], stat[19]]) as usize;
    stat[20..20 + len].to_vec()
}

/// Assembles an animated WebP container: a VP8X header with the animation
/// flag and the given canvas size, an ANIM chunk, and one top-left ANMF
/// frame per entry.
fn animated_webp(canvas_w: u32, canvas_h: u32, frames: &[(u32, u32)]) -> Vec<u8> {
    let mut chunks = Vec::new();
    let mut vp8x = vec![0b0000_0010u8, 0, 0, 0];
    vp8x.extend_from_slice(&le24(canvas_w - 1));
    vp8x.extend_from_slice(&le24(canvas_h - 1));
    push_chunk(&mut chunks, b"VP8X", &vp8x);
    push_chunk(&mut chunks, b"ANIM", &[0, 0, 0, 0, 0, 0]);
    for &(fw, fh) in frames {
        let mut p = Vec::new();
        p.extend_from_slice(&le24(0));
        p.extend_from_slice(&le24(0));
        p.extend_from_slice(&le24(fw - 1));
        p.extend_from_slice(&le24(fh - 1));
        p.extend_from_slice(&le24(100));
        p.push(0);
        push_chunk(&mut p, b"VP8L", &vp8l_payload(fw, fh));
        push_chunk(&mut chunks, b"ANMF", &p);
    }
    let mut out = Vec::new();
    out.extend_from_slice(b"RIFF");
    out.extend_from_slice(&((chunks.len() + 4) as u32).to_le_bytes());
    out.extend_from_slice(b"WEBP");
    out.extend_from_slice(&chunks);
    out
}

#[test]
fn static_webp_under_autosend_needs_no_transcoding() {
    let bytes = static_webp(8, 8);
    let r = webp_transfer(&bytes, true);
    assert!(matches!(r, Err(WebPTransferError::AutoPngNotNeeded)));
}

#[test]
fn static_webp_on_explicit_request_becomes_png() {
    let bytes = static_webp(8, 8);
    let asset = webp_transfer(&bytes, false).unwrap();
    assert!(matches!(asset.format, AssetFormat::Png));
    assert_eq!(asset.filename, "transfered.png");
    let out = image::load_from_memory(&asset.bytes).unwrap();
    assert_eq!((out.width(), out.height()), (8, 8));
}

#[test]
fn animated_webp_transcodes_to_looping_gif() {
    let bytes = animated_webp(4, 4, &[(4, 4), (4, 4)]);
    let asset = webp_transfer(&bytes, true).unwrap();
    assert!(matches!(asset.format, AssetFormat::Gif));
    assert_eq!(asset.filename, "transfered.gif");
    assert_eq!(&asset.bytes[..6], b"GIF89a");
    // The loop-forever flag rides in the NETSCAPE application extension.
    assert!(asset.bytes.windows(11).any(|w| w == b"NETSCAPE2.0"));
    let dec = image::codecs::gif::GifDecoder::new(std::io::Cursor::new(&asset.bytes[..])).unwrap();
    assert_eq!(image::ImageDecoder::dimensions(&dec), (4, 4));
}

#[test]
fn oversized_animated_webp_is_rejected_before_any_encoding() {
    // 2000 x 2000 canvas: 16 MB of raw pixels, far above the 2 MB ceiling,
    // while the single frame stays tiny.
    let bytes = animated_webp(2000, 2000, &[(1, 1)]);
    assert!(matches!(
        webp_transfer(&bytes, true),
        Err(WebPTransferError::SizeLimitExceeded)
    ));
    assert!(matches!(
        webp_transfer(&bytes, false),
        Err(WebPTransferError::SizeLimitExceeded)
    ));
}

#[test]
fn decoded_size_ceiling_sits_at_exactly_two_megabytes() {
    assert_eq!(DECODED_SIZE_CEILING, 2 * 1024 * 1024);
    // 724 * 724 * 4 bytes sits just under the ceiling, 725 * 725 * 4 above.
    let under = static_webp(724, 724);
    assert!(matches!(
        webp_transfer(&under, true),
        Err(WebPTransferError::AutoPngNotNeeded)
    ));
    let over = static_webp(725, 725);
    assert!(matches!(
        webp_transfer(&over, true),
        Err(WebPTransferError::SizeLimitExceeded)
    ));
}

#[test]
fn too_wide_animation_reports_a_gif_encoding_error() {
    // A 70000 x 1 canvas stays under the decoded-size ceiling, but GIF
    // dimensions are 16-bit, so the encoder rejects the frame.
    let bytes = animated_webp(70000, 1, &[(1, 1)]);
    assert!(matches!(
        webp_transfer(&bytes, false),
        Err(WebPTransferError::GifEncodingError)
    ));
}

#[test]
fn garbage_bytes_report_a_decode_error() {
    let r = webp_transfer(&[0u8, 1, 2, 3, 4, 5], false);
    assert!(matches!(r, Err(WebPTransferError::DecodingWebPError)));
}

#[test]
fn webp_url_suffix_check() {
    assert!(is_webp_url("https://cdn.discordapp.com/attachments/a/b/c.webp"));
    assert!(!is_webp_url("https://cdn.discordapp.com/attachments/a/b/c.png"));
    assert!(!is_webp_url("webp"));
    assert!(is_webp_url(".webp"));
}

#[test]
fn input_ceiling_is_ten_megabytes() {
    assert_eq!(INPUT_SIZE_CEILING, 10 * 1024 * 1024);
    assert!(input_size_ok(10 * 1024 * 1024));
    assert!(!input_size_ok(10 * 1024 * 1024 + 1));
}

#[test]
fn output_ceiling_scales_with_the_boost_level() {
    assert_eq!(max_output_bytes(&PremiumTier::Tier0), 10 * 1024 * 1024);
    assert_eq!(max_output_bytes(&PremiumTier::Tier1), 10 * 1024 * 1024);
    assert_eq!(max_output_bytes(&PremiumTier::Tier2), 25 * 1024 * 1024);
    assert_eq!(max_output_bytes(&PremiumTier::Tier3), 50 * 1024 * 1024);

    let small = webp_transfer(&static_webp(8, 8), false).unwrap();
    assert!(output_fits(&small, &PremiumTier::Tier0));
}

#[test]
fn error_messages_are_the_fixed_user_notices() {
    assert_eq!(
        WebPTransferError::GetRequestFailed.get_error_message(),
        "디스코드 서버로부터 이미지를 가져오는 데 실패했습니다."
    );
    assert_eq!(
        WebPTransferError::DecodingWebPError.get_error_message(),
        "WebP 이미지를 디코딩하는데 실패했습니다."
    );
    assert_eq!(
        WebPTransferError::GifEncodingError.get_error_message(),
        "WebP 이미지를 Gif 이미지로 인코딩하는데 실패했습니다."
    );
    assert_eq!(
        WebPTransferError::SetRepeatError.get_error_message(),
        "Gif 반복 설정을 하는데 실패했습니다."
    );
    assert_eq!(
        WebPTransferError::SizeLimitExceeded.get_error_message(),
        "변환하려는 WebP의 크기가 너무 큽니다. 2MB 이하의 WebP 이미지만 지원합니다."
    );
    assert_eq!(
        WebPTransferError::AutoPngNotNeeded.get_error_message(),
        "정적 webp는 지원하니까 굳이..?"
    );
    assert_eq!(
        WebPTransferError::Mollu.get_error_message(),
        "에러났는데 뭔지모르겠노"
    );
}
