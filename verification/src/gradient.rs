//! The gradient recoloring pass.  The drawn surface's RGBA buffer is
//! scanned in order; every byte above zero marks a drawn pixel (the
//! surface strokes opaque black, so the mark is the alpha byte), and the
//! three bytes before the mark — that pixel's red, green and blue — are
//! replaced with the blend of the two endpoint colors at the mark's
//! fraction of the whole buffer.  The gradient therefore runs with raster
//! scan position, not with position along the drawn curve.  Alpha bytes
//! and untouched background pixels keep their values.

use vstd::prelude::*;
use crate::color::Rgb;

verus! {

/// Whether the byte at `i` marks a drawn pixel whose triplet is rewritten:
/// it must be above zero and leave room for the three bytes before it.
pub open spec fn marks(buf: Seq<u8>, i: int) -> bool {
    3 <= i < buf.len() && buf[i] > 0
}

/// The blend of channel values `a` and `b` at fraction `i / total`,
/// truncated to a byte.  For `0 <= i < total` the exact rational value
/// lies between `a` and `b`, so the truncation stays in byte range.
pub open spec fn blend(a: u8, b: u8, i: int, total: int) -> int {
    ((a as int) * total + ((b as int) - (a as int)) * i) / total
}

/// The byte at `j` after the pass, as a function of the buffer before it.
/// The scan rewrites the triplet below each mark in ascending order, and
/// every mark lies above the bytes it rewrites, so each byte is read
/// before any rewrite can reach it and the last write to it wins: the
/// red write from a mark at `j + 3` falls after the green write from one
/// at `j + 2`, which falls after the blue write from one at `j + 1`.
pub open spec fn recolored_byte(buf: Seq<u8>, start: Rgb, end: Rgb, j: int) -> u8 {
    let total = buf.len() as int;
    if marks(buf, j + 3) {
        blend(start.red, end.red, j + 3, total) as u8
    } else if marks(buf, j + 2) {
        blend(start.green, end.green, j + 2, total) as u8
    } else if marks(buf, j + 1) {
        blend(start.blue, end.blue, j + 1, total) as u8
    } else {
        buf[j]
    }
}

/// The byte at `j` once the scan has processed all marks below `bound`.
pub open spec fn partial_byte(buf: Seq<u8>, start: Rgb, end: Rgb, bound: int, j: int) -> u8 {
    let total = buf.len() as int;
    if marks(buf, j + 3) && j + 3 < bound {
        blend(start.red, end.red, j + 3, total) as u8
    } else if marks(buf, j + 2) && j + 2 < bound {
        blend(start.green, end.green, j + 2, total) as u8
    } else if marks(buf, j + 1) && j + 1 < bound {
        blend(start.blue, end.blue, j + 1, total) as u8
    } else {
        buf[j]
    }
}

/// A blend truncates to byte range.
proof fn lemma_blend_in_range(a: u8, b: u8, i: int, total: int)
    requires
        0 <= i < total,
    ensures
        0 <= blend(a, b, i, total) <= 255,
        0 <= (a as int) * total + ((b as int) - (a as int)) * i <= 255 * total,
{
    let num = (a as int) * total + ((b as int) - (a as int)) * i;
    assert((a as int) * total + ((b as int) - (a as int)) * i == (a as int) * (total - i) + (
    b as int) * i) by (nonlinear_arith);
    assert((a as int) * (total - i) + (b as int) * i >= 0) by (nonlinear_arith)
        requires
            0 <= i < total,
            0 <= a,
            0 <= b,
    ;
    assert((a as int) * (total - i) + (b as int) * i <= 255 * total) by (nonlinear_arith)
        requires
            0 <= i < total,
            a <= 255,
            b <= 255,
    ;
    assert(blend(a, b, i, total) == num / total);
    assert(num / total >= 0) by (nonlinear_arith)
        requires
            num >= 0,
            total > 0,
    ;
    assert(num / total <= 255) by (nonlinear_arith)
        requires
            num <= 255 * total,
            total > 0,
    ;
}

/// One channel blend, in exact integer arithmetic.
fn blend_channel(a: u8, b: u8, i: usize, total: usize) -> (r: u8)
    requires
        i < total,
    ensures
        r == blend(a, b, i as int, total as int),
{
    proof {
        lemma_blend_in_range(a, b, i as int, total as int);
        assert(0 <= (a as int) * (total as int) <= 255 * (total as int)) by (nonlinear_arith)
            requires
                0 <= a <= 255,
                0 <= (total as int),
        ;
        assert(0 <= ((b as int) - (a as int)) * (i as int) <= 255 * (total as int) || 0 <= -(((
        b as int) - (a as int)) * (i as int)) <= 255 * (total as int)) by (nonlinear_arith)
            requires
                -255 <= (b as int) - (a as int) <= 255,
                0 <= (i as int) <= (total as int),
        ;
        assert(((b as int) - (a as int)) * (i as int) == -(((a as int) - (b as int)) * (
        i as int))) by (nonlinear_arith);
    }
    let num: u128 = if b >= a {
        (a as u128) * (total as u128) + ((b - a) as u128) * (i as u128)
    } else {
        (a as u128) * (total as u128) - ((a - b) as u128) * (i as u128)
    };
    proof {
        assert(num == (a as int) * (total as int) + ((b as int) - (a as int)) * (i as int));
        assert(num / (total as u128) == blend(a, b, i as int, total as int));
    }
    let q: u128 = num / (total as u128);
    q as u8
}

/// Recolor the drawn buffer in place with the linear gradient from
/// `start` to `end`.  `width * height * 4` must be the buffer's length —
/// an RGBA byte per channel per pixel.  Every byte is pinned by
/// `recolored_byte`: the triplet under each drawn mark takes the blend at
/// the mark's scan fraction, everything else keeps its value.
pub fn recolor(buffer: &mut Vec<u8>, width: usize, height: usize, start: Rgb, end: Rgb)
    requires
        old(buffer)@.len() == width * height * 4,
    ensures
        final(buffer)@.len() == old(buffer)@.len(),
        forall|j: int|
            0 <= j < old(buffer)@.len() ==> final(buffer)@[j] == recolored_byte(
                old(buffer)@,
                start,
                end,
                j,
            ),
{
    let ghost orig = buffer@;
    let total = buffer.len();
    let mut i: usize = 0;
    while i < total
        invariant
            i <= total,
            total == orig.len(),
            buffer@.len() == orig.len(),
            forall|j: int| i <= j < orig.len() ==> buffer@[j] == orig[j],
            forall|j: int|
                0 <= j < orig.len() ==> buffer@[j] == partial_byte(orig, start, end, i as int, j),
        decreases total - i,
    {
        if i >= 3 && buffer[i] > 0 {
            proof {
                assert(marks(orig, i as int));
            }
            let r = blend_channel(start.red, end.red, i, total);
            let g = blend_channel(start.green, end.green, i, total);
            let b = blend_channel(start.blue, end.blue, i, total);
            buffer.set(i - 3, r);
            buffer.set(i - 2, g);
            buffer.set(i - 1, b);
        }
        i += 1;
    }
}

} // verus!
