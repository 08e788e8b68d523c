//! The accumulation buffer that glyph edges are drawn into.

use vstd::prelude::*;
use crate::placement::{buffer_len, cell_index, PADDING};

verus! {

/// A row-major buffer of `width * height` cells followed by a few slots of
/// padding. Writes that fall outside the buffer are dropped.
pub struct Canvas<T> {
    w: usize,
    h: usize,
    a: Vec<T>,
}

impl<T: Copy> Canvas<T> {
    /// The cells, padding included.
    pub closed spec fn cells(&self) -> Seq<T> {
        self.a@
    }

    /// The width in pixels.
    pub closed spec fn width(&self) -> nat {
        self.w as nat
    }

    /// The height in pixels.
    pub closed spec fn height(&self) -> nat {
        self.h as nat
    }

    /// The buffer holds one cell per pixel and the padding.
    pub open spec fn wf(&self) -> bool {
        self.cells().len() == self.width() * self.height() + PADDING
    }

    /// A `width` by `height` canvas with every cell, padding included, set to
    /// `zero`; `None` where the buffer would not fit in memory's address range.
    pub fn new(width: u32, height: u32, zero: T) -> (r: Option<Self>)
        ensures
            r is Some <==> width as int * height as int + PADDING <= usize::MAX,
            r matches Some(c) ==> {
                &&& c.wf()
                &&& c.width() == width
                &&& c.height() == height
                &&& forall|i: int| 0 <= i < c.cells().len() ==> #[trigger] c.cells()[i] == zero
            },
    {
        match buffer_len(width, height) {
            None => None,
            Some(n) => {
                let mut a: Vec<T> = Vec::new();
                let mut k: usize = 0;
                while k < n
                    invariant
                        k <= n,
                        a@.len() == k,
                        forall|i: int| 0 <= i < k ==> #[trigger] a@[i] == zero,
                    decreases n - k,
                {
                    a.push(zero);
                    k = k + 1;
                }
                Some(Canvas { w: width as usize, h: height as usize, a })
            },
        }
    }

    /// The number of pixels, padding excluded.
    pub fn pixel_count(&self) -> (r: usize)
        requires
            self.wf(),
        ensures
            r == self.width() * self.height(),
    {
        self.a.len() - PADDING
    }

    /// The width in pixels.
    pub fn row_len(&self) -> (r: usize)
        ensures
            r == self.width(),
    {
        self.w
    }

    /// The height in pixels.
    pub fn rows(&self) -> (r: usize)
        ensures
            r == self.height(),
    {
        self.h
    }

    /// The slot that column `column` of row `row` falls on, counted from the
    /// row's first cell, or `None` where it lies outside the buffer. A column
    /// past the row's end reaches into the rows after it.
    pub fn slot(&self, row: usize, column: i32) -> (r: Option<usize>)
        requires
            self.wf(),
            row < self.height(),
        ensures
            r is Some <==> 0 <= row * self.width() + column < self.cells().len(),
            r matches Some(i) ==> i == row * self.width() + column,
    {
        let n = self.a.len();
        assert(row * self.w <= self.w * self.h) by (nonlinear_arith)
            requires
                row < self.h,
        ;
        cell_index(row * self.w, column, n)
    }

    /// The value of cell `i`.
    pub fn get(&self, i: usize) -> (r: T)
        requires
            i < self.cells().len(),
        ensures
            r == self.cells()[i as int],
    {
        self.a[i]
    }

    /// Sets cell `i` to `v`, where `i` lies inside the buffer; a write to any
    /// other place is dropped.
    pub fn set(&mut self, i: usize, v: T)
        ensures
            final(self).width() == old(self).width(),
            final(self).height() == old(self).height(),
            final(self).cells() == if i < old(self).cells().len() {
                old(self).cells().update(i as int, v)
            } else {
                old(self).cells()
            },
    {
        if i < self.a.len() {
            self.a.set(i, v);
        }
    }
}

} // verus!
