//! Side-by-side composition of two still emoji images.
//!
//! The canvas is as wide as both inputs together and as tall as the taller
//! one; the first image sits at the origin, the second directly to its right,
//! top-aligned, with no scaling. Cells covered by neither input stay fully
//! transparent. The canvas is built pixel by pixel in verified code; only the
//! PNG decode of the inputs and the PNG encode of the canvas are outside
//! calls.

use vstd::arithmetic::div_mod::lemma_fundamental_div_mod_converse;
use vstd::prelude::*;
use vstd::string::StringExecFns;

use crate::img_codec::{decode_rgba, decoded_rgba_of, encode_png, png_encoding_of};

verus! {

/// Height of the composed canvas: the taller of the two inputs.
pub open spec fn canvas_height(ah: int, bh: int) -> int {
    if ah >= bh {
        ah
    } else {
        bh
    }
}

/// The channel byte at column `x`, row `y`, channel `c` of the canvas that
/// holds raster `a` at the origin and raster `b` directly to its right.
pub open spec fn composed_byte(
    aw: int,
    ah: int,
    apx: Seq<u8>,
    bw: int,
    bh: int,
    bpx: Seq<u8>,
    x: int,
    y: int,
    c: int,
) -> u8 {
    if x < aw && y < ah {
        apx[4 * (y * aw + x) + c]
    } else if x >= aw && y < bh {
        bpx[4 * (y * bw + (x - aw)) + c]
    } else {
        0u8
    }
}

/// The RGBA8 byte sequence of the composed canvas, row-major, 4 bytes per
/// pixel.
pub open spec fn composed_canvas(
    aw: int,
    ah: int,
    apx: Seq<u8>,
    bw: int,
    bh: int,
    bpx: Seq<u8>,
) -> Seq<u8> {
    let cw = aw + bw;
    Seq::new(
        (4 * (cw * canvas_height(ah, bh))) as nat,
        |k: int|
            composed_byte(aw, ah, apx, bw, bh, bpx, (k / 4) % cw, (k / 4) / cw, k % 4),
    )
}

/// The flat index `4 * (y * cw + x) + c` decomposes back into exactly the
/// pixel `(x, y)` and channel `c` it was built from.
proof fn lemma_pixel_index(cw: int, x: int, y: int, c: int)
    requires
        0 <= c < 4,
        0 <= x < cw,
        0 <= y,
    ensures
        (4 * (y * cw + x) + c) / 4 == y * cw + x,
        (4 * (y * cw + x) + c) % 4 == c,
        (y * cw + x) % cw == x,
        (y * cw + x) / cw == y,
{
    assert(y * cw + x >= 0) by (nonlinear_arith)
        requires
            0 <= x,
            0 <= y,
            0 < cw,
    ;
    lemma_fundamental_div_mod_converse(4 * (y * cw + x) + c, 4, y * cw + x, c);
    lemma_fundamental_div_mod_converse(y * cw + x, cw, y, x);
}

/// The channel byte the composed canvas holds at `(x, y, c)`.
fn source_byte(
    aw: u32,
    ah: u32,
    apx: &Vec<u8>,
    bw: u32,
    bh: u32,
    bpx: &Vec<u8>,
    x: u32,
    y: u32,
    c: u32,
) -> (r: u8)
    requires
        apx@.len() == 4 * (aw * ah),
        bpx@.len() == 4 * (bw * bh),
        x < aw + bw,
        y < canvas_height(ah as int, bh as int),
        c < 4,
    ensures
        r == composed_byte(
            aw as int,
            ah as int,
            apx@,
            bw as int,
            bh as int,
            bpx@,
            x as int,
            y as int,
            c as int,
        ),
{
    if x < aw && y < ah {
        let a_len: usize = apx.len();
        proof {
            assert((y as int) * (aw as int) + (x as int) < (aw as int) * (ah as int))
                by (nonlinear_arith)
                requires
                    x < aw,
                    y < ah,
            ;
            assert(4 * ((y as int) * (aw as int) + (x as int)) + (c as int) < a_len as int);
        }
        let idx: usize = 4 * ((y as usize) * (aw as usize) + (x as usize)) + (c as usize);
        apx[idx]
    } else if x >= aw && y < bh {
        let b_len: usize = bpx.len();
        proof {
            assert((y as int) * (bw as int) + ((x - aw) as int) < (bw as int) * (bh as int))
                by (nonlinear_arith)
                requires
                    aw <= x < aw + bw,
                    y < bh,
            ;
            assert(4 * ((y as int) * (bw as int) + ((x - aw) as int)) + (c as int) < b_len as int);
        }
        let idx: usize = 4 * ((y as usize) * (bw as usize) + ((x - aw) as usize)) + (c as usize);
        bpx[idx]
    } else {
        0u8
    }
}

/// Composes two RGBA8 rasters side by side into one canvas, `a` at the
/// origin and `b` directly to its right, top-aligned, unscaled.
pub fn compose_side_by_side(
    aw: u32,
    ah: u32,
    apx: &Vec<u8>,
    bw: u32,
    bh: u32,
    bpx: &Vec<u8>,
) -> (r: Vec<u8>)
    requires
        apx@.len() == 4 * (aw * ah),
        bpx@.len() == 4 * (bw * bh),
        aw + bw <= u32::MAX,
        4 * ((aw + bw) * canvas_height(ah as int, bh as int)) <= usize::MAX,
    ensures
        r@ == composed_canvas(aw as int, ah as int, apx@, bw as int, bh as int, bpx@),
{
    let cw: u32 = aw + bw;
    let ch: u32 = if ah >= bh {
        ah
    } else {
        bh
    };
    let ghost canvas = composed_canvas(aw as int, ah as int, apx@, bw as int, bh as int, bpx@);
    let mut out: Vec<u8> = Vec::new();
    let mut y: u32 = 0;
    while y < ch
        invariant
            apx@.len() == 4 * (aw * ah),
            bpx@.len() == 4 * (bw * bh),
            cw == aw + bw,
            ch == canvas_height(ah as int, bh as int),
            4 * ((cw as int) * (ch as int)) <= usize::MAX,
            canvas == composed_canvas(aw as int, ah as int, apx@, bw as int, bh as int, bpx@),
            y <= ch,
            out@.len() == 4 * ((y as int) * (cw as int)),
            forall|k: int| 0 <= k < out@.len() ==> out@[k] == canvas[k],
        decreases ch - y,
    {
        let mut x: u32 = 0;
        while x < cw
            invariant
                apx@.len() == 4 * (aw * ah),
                bpx@.len() == 4 * (bw * bh),
                cw == aw + bw,
                ch == canvas_height(ah as int, bh as int),
                4 * ((cw as int) * (ch as int)) <= usize::MAX,
                canvas == composed_canvas(
                    aw as int,
                    ah as int,
                    apx@,
                    bw as int,
                    bh as int,
                    bpx@,
                ),
                y < ch,
                x <= cw,
                out@.len() == 4 * ((y as int) * (cw as int) + x as int),
                forall|k: int| 0 <= k < out@.len() ==> out@[k] == canvas[k],
            decreases cw - x,
        {
            proof {
                assert((y as int) * (cw as int) + (x as int) < (cw as int) * (ch as int))
                    by (nonlinear_arith)
                    requires
                        x < cw,
                        y < ch,
                ;
            }
            let mut c: u32 = 0;
            while c < 4
                invariant
                    apx@.len() == 4 * (aw * ah),
                    bpx@.len() == 4 * (bw * bh),
                    cw == aw + bw,
                    ch == canvas_height(ah as int, bh as int),
                    4 * ((cw as int) * (ch as int)) <= usize::MAX,
                    canvas == composed_canvas(
                        aw as int,
                        ah as int,
                        apx@,
                        bw as int,
                        bh as int,
                        bpx@,
                    ),
                    y < ch,
                    x < cw,
                    c <= 4,
                    (y as int) * (cw as int) + (x as int) < (cw as int) * (ch as int),
                    out@.len() == 4 * ((y as int) * (cw as int) + x as int) + c,
                    forall|k: int| 0 <= k < out@.len() ==> out@[k] == canvas[k],
                decreases 4 - c,
            {
                let b = source_byte(aw, ah, apx, bw, bh, bpx, x, y, c);
                proof {
                    lemma_pixel_index(cw as int, x as int, y as int, c as int);
                    assert((cw as int) * (ch as int) >= 0) by (nonlinear_arith);
                    assert(canvas.len() == 4 * ((cw as int) * (ch as int)));
                    assert(canvas[out@.len() as int] == b);
                }
                out.push(b);
                c += 1;
            }
            x += 1;
        }
        proof {
            assert(((y + 1) as int) * (cw as int) == (y as int) * (cw as int) + (cw as int))
                by (nonlinear_arith)
            ;
        }
        y += 1;
    }
    proof {
        assert((ch as int) * (cw as int) == (cw as int) * (ch as int)) by (nonlinear_arith);
        assert((cw as int) * (ch as int) >= 0) by (nonlinear_arith);
        assert(canvas.len() == 4 * ((cw as int) * (ch as int)));
        assert(out@ =~= canvas);
    }
    out
}

/// Why a two-emoji composition failed.
#[derive(Debug, Clone, Copy, PartialEq, Eq, Structural)]
pub enum MergeError {
    /// One of the inputs did not decode as a still image.
    UnsupportedOrCorruptImage,
    /// The two rasters would compose into a canvas too large to hold.
    CanvasTooLarge,
    /// The composed canvas could not be encoded as PNG.
    StillEncodeFailed,
}

/// What a two-emoji merge must return for the input byte streams: the PNG
/// encoding of the side-by-side canvas of the two decoded rasters, or the
/// stage-specific error.
pub open spec fn merge_outcome_ok(a: Seq<u8>, b: Seq<u8>, r: Result<Vec<u8>, MergeError>) -> bool {
    match (decoded_rgba_of(a), decoded_rgba_of(b)) {
        (Some(da), Some(db)) => {
            let cw = da.0 + db.0;
            let ch = canvas_height(da.1 as int, db.1 as int);
            if cw > u32::MAX || 4 * (cw * ch) > usize::MAX {
                r == Err::<Vec<u8>, MergeError>(MergeError::CanvasTooLarge)
            } else {
                match png_encoding_of(
                    composed_canvas(da.0 as int, da.1 as int, da.2, db.0 as int, db.1 as int, db.2),
                    cw as u32,
                    ch as u32,
                ) {
                    None => r == Err::<Vec<u8>, MergeError>(MergeError::StillEncodeFailed),
                    Some(png) => r matches Ok(v) && v@ == png,
                }
            }
        },
        _ => r == Err::<Vec<u8>, MergeError>(MergeError::UnsupportedOrCorruptImage),
    }
}

/// Composes two emoji images side by side and encodes the canvas as PNG.
///
/// Both inputs must decode as still images; either decode failure fails the
/// whole operation, as does a canvas too large to hold or an encoder
/// rejection. No scaling or alignment happens beyond top-left placement.
pub fn merge_two_emojis(first_bytes: &[u8], second_bytes: &[u8]) -> (r: Result<Vec<u8>, MergeError>)
    ensures
        merge_outcome_ok(first_bytes@, second_bytes@, r),
{
    let (aw, ah, apx) = match decode_rgba(first_bytes) {
        Err(()) => {
            return Err(MergeError::UnsupportedOrCorruptImage);
        },
        Ok(d) => d,
    };
    let (bw, bh, bpx) = match decode_rgba(second_bytes) {
        Err(()) => {
            return Err(MergeError::UnsupportedOrCorruptImage);
        },
        Ok(d) => d,
    };
    if (aw as u64) + (bw as u64) > (u32::MAX as u64) {
        return Err(MergeError::CanvasTooLarge);
    }
    let ch64: u64 = if ah >= bh {
        ah as u64
    } else {
        bh as u64
    };
    proof {
        assert(4 * (((aw as int) + (bw as int)) * (ch64 as int)) <= u128::MAX) by (nonlinear_arith)
            requires
                aw <= u32::MAX,
                bw <= u32::MAX,
                ch64 <= u64::MAX,
        ;
        assert(4 * (((aw as int) + (bw as int)) * (ch64 as int)) == 4 * ((aw as int) + (bw as int))
            * (ch64 as int)) by (nonlinear_arith);
    }
    if 4u128 * ((aw as u128) + (bw as u128)) * (ch64 as u128) > (usize::MAX as u128) {
        return Err(MergeError::CanvasTooLarge);
    }
    let canvas = compose_side_by_side(aw, ah, &apx, bw, bh, &bpx);
    let cw: u32 = aw + bw;
    let ch: u32 = if ah >= bh {
        ah
    } else {
        bh
    };
    match encode_png(canvas.as_slice(), cw, ch) {
        Err(()) => Err(MergeError::StillEncodeFailed),
        Ok(png) => Ok(png),
    }
}

/// The fetch URL for one emoji of a side-by-side pair: the canonical CDN URL
/// with the fixed 128-pixel server-side pre-resize hint.
pub fn merged_fetch_url(url: &str) -> (r: String)
    ensures
        r@ == url@ + "?size=128"@,
{
    let mut u = String::from_str(url);
    u.append("?size=128");
    u
}

/// Law: composing two same-size rasters of width `w` and height `h` yields a
/// `2w` x `h` canvas whose left half holds exactly the first raster's pixels
/// and whose right half exactly the second's, channel for channel.
pub proof fn lemma_compose_same_size_halves(
    w: int,
    h: int,
    apx: Seq<u8>,
    bpx: Seq<u8>,
    x: int,
    y: int,
    c: int,
)
    requires
        0 < w,
        0 < h,
        apx.len() == 4 * w * h,
        bpx.len() == 4 * w * h,
        0 <= x < w,
        0 <= y < h,
        0 <= c < 4,
    ensures
        composed_canvas(w, h, apx, w, h, bpx).len() == 4 * ((2 * w) * h),
        composed_canvas(w, h, apx, w, h, bpx)[4 * (y * (2 * w) + x) + c] == apx[4 * (y * w + x)
            + c],
        composed_canvas(w, h, apx, w, h, bpx)[4 * (y * (2 * w) + (w + x)) + c] == bpx[4 * (y * w
            + x) + c],
{
    let cw = 2 * w;
    assert(y * cw + x < cw * h && y * cw + (w + x) < cw * h) by (nonlinear_arith)
        requires
            0 <= x < w,
            0 <= y < h,
            cw == 2 * w,
            0 < w,
    ;
    lemma_pixel_index(cw, x, y, c);
    lemma_pixel_index(cw, w + x, y, c);
}

} // verus!
