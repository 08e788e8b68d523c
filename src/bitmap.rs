//! The coverage bitmap that rasterizing a glyph produces.

use vstd::prelude::*;

verus! {

/// The result of rasterizing a glyph.
#[derive(Debug, Clone)]
pub struct Bitmap {
    /// Horizontal pixel position (from the left) at which the bitmap should be
    /// placed in the larger raster.
    pub left: i32,
    /// Vertical pixel position (from the top) at which the bitmap should be
    /// placed in the larger raster.
    pub top: i32,
    /// The width of the coverage bitmap in pixels.
    pub width: u32,
    /// The height of the coverage bitmap in pixels.
    pub height: u32,
    /// How much each pixel is covered, `0` meaning none and `255` full
    /// coverage, stored row by row.
    pub coverage: Vec<u8>,
}

/// The row-major position of pixel `(x, y)` in a bitmap `width` pixels wide.
pub open spec fn pixel_offset(width: int, x: int, y: int) -> int {
    y * width + x
}

impl Bitmap {
    /// The coverage holds exactly one value per pixel.
    pub open spec fn wf(&self) -> bool {
        self.coverage@.len() == self.width as int * self.height as int
    }

    /// A bitmap without pixels, placed at `(left, top)`.
    pub fn empty(left: i32, top: i32) -> (r: Bitmap)
        ensures
            r.wf(),
            r.left == left,
            r.top == top,
            r.width == 0,
            r.height == 0,
            r.coverage@ == Seq::<u8>::empty(),
    {
        Bitmap { left, top, width: 0, height: 0, coverage: Vec::new() }
    }

    /// Assembles a bitmap, provided `coverage` holds one value per pixel.
    pub fn from_coverage(left: i32, top: i32, width: u32, height: u32, coverage: Vec<u8>) -> (r:
        Option<Bitmap>)
        ensures
            r is Some <==> coverage@.len() == width as int * height as int,
            r matches Some(b) ==> {
                &&& b.wf()
                &&& b.left == left
                &&& b.top == top
                &&& b.width == width
                &&& b.height == height
                &&& b.coverage@ == coverage@
            },
    {
        let n = coverage.len() as u64;
        let w = width as u64;
        let h = height as u64;
        assert(w * h <= u32::MAX as int * u32::MAX as int) by (nonlinear_arith)
            requires
                w <= u32::MAX,
                h <= u32::MAX,
        ;
        if n == w * h {
            Some(Bitmap { left, top, width, height, coverage })
        } else {
            None
        }
    }

    /// The coverage of pixel `(x, y)`, or `None` outside the bitmap.
    pub fn coverage_at(&self, x: u32, y: u32) -> (r: Option<u8>)
        requires
            self.wf(),
        ensures
            r is Some <==> (x < self.width && y < self.height),
            r matches Some(c) ==> c == self.coverage@[pixel_offset(
                self.width as int,
                x as int,
                y as int,
            )],
    {
        if x < self.width && y < self.height {
            let w = self.width as usize;
            let len = self.coverage.len();
            assert(y as int * w + x < self.height as int * w) by (nonlinear_arith)
                requires
                    x < w,
                    y < self.height,
            ;
            assert(self.height as int * w == self.width as int * self.height as int)
                by (nonlinear_arith)
                requires
                    w == self.width,
            ;
            assert(y as int * w <= y as int * w + x);
            let i = (y as usize) * w + x as usize;
            Some(self.coverage[i])
        } else {
            None
        }
    }
}

/// Every coverage value lies between no coverage (0) and full coverage (255).
pub proof fn lemma_coverage_in_range(b: &Bitmap)
    ensures
        forall|i: int| 0 <= i < b.coverage@.len() ==> 0 <= #[trigger] b.coverage@[i] <= 255,
{
}

} // verus!
