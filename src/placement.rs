//! Integer placement of a glyph's pixel box, and the indexing rules of the
//! signed-area accumulation buffer that the glyph is drawn into.

use vstd::prelude::*;

verus! {

/// Slots of padding after the last pixel of the accumulation buffer, which
/// absorb writes just past the end.
pub const PADDING: usize = 4;

/// The number of pixels between two pixel boundaries: `hi - lo`, or none when
/// `hi` does not lie past `lo`.
pub open spec fn extent(lo: int, hi: int) -> int {
    if hi > lo {
        hi - lo
    } else {
        0
    }
}

/// The pixel-aligned box a glyph occupies in the larger raster.
#[derive(Debug, Clone, Copy, PartialEq, Eq)]
pub struct PixelBox {
    /// Column of the box's left edge.
    pub left: i32,
    /// Row of the box's top edge.
    pub top: i32,
    /// Width in pixels.
    pub width: u32,
    /// Height in pixels.
    pub height: u32,
}

/// The box between the floored left and top and the ceiled right and bottom
/// pixel boundaries. A box whose right edge does not lie past its left edge
/// (or whose bottom does not lie below its top) has no area.
pub fn pixel_box(left: i32, right: i32, top: i32, bottom: i32) -> (r: PixelBox)
    ensures
        r.left == left,
        r.top == top,
        r.width == extent(left as int, right as int),
        r.height == extent(top as int, bottom as int),
{
    let width: u32 = if right > left {
        (right as i64 - left as i64) as u32
    } else {
        0
    };
    let height: u32 = if bottom > top {
        (bottom as i64 - top as i64) as u32
    } else {
        0
    };
    PixelBox { left, top, width, height }
}

/// The length of the accumulation buffer for a `width` by `height` box: one
/// slot per pixel and the padding, or `None` where that does not fit a `usize`.
pub fn buffer_len(width: u32, height: u32) -> (r: Option<usize>)
    ensures
        r is Some <==> width as int * height as int + PADDING <= usize::MAX,
        r matches Some(n) ==> n == width as int * height as int + PADDING,
{
    let w = width as usize;
    let h = height as usize;
    match w.checked_mul(h) {
        Some(cells) => cells.checked_add(PADDING),
        None => {
            assert(w as int * h as int + PADDING > usize::MAX) by (nonlinear_arith)
                requires
                    w as int * h as int > usize::MAX,
            ;
            None
        },
    }
}

/// The buffer slot that column `column` of the row starting at `row_start`
/// falls on, when it lies inside a buffer of `len` slots. A write to any other
/// place is dropped, which absorbs the sub-pixel overshoot of curves at the
/// edge of the box.
pub fn cell_index(row_start: usize, column: i32, len: usize) -> (r: Option<usize>)
    ensures
        r is Some <==> 0 <= row_start + column < len,
        r matches Some(i) ==> i == row_start + column,
{
    if column >= 0 {
        let c = column as usize;
        if c < len && row_start < len - c {
            Some(row_start + c)
        } else {
            None
        }
    } else {
        let back = (-(column as i64)) as usize;
        if row_start >= back && row_start - back < len {
            Some(row_start - back)
        } else {
            None
        }
    }
}

/// Shifting both boundaries by the same whole number of pixels keeps the
/// number of pixels between them.
pub proof fn lemma_extent_translation(lo: int, hi: int, k: int)
    ensures
        extent(lo + k, hi + k) == extent(lo, hi),
{
}

/// Moving the low boundary down and the high boundary up never shrinks the
/// number of pixels between them.
pub proof fn lemma_extent_monotone(lo: int, hi: int, lo2: int, hi2: int)
    requires
        lo2 <= lo,
        hi <= hi2,
    ensures
        extent(lo, hi) <= extent(lo2, hi2),
{
}

} // verus!
