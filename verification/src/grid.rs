//! The pixel grid: a 2D image of colors with explicit width and height.
//!
//! Pixels are stored row-major: the pixel at `(x, y)` sits at index
//! `y * width + x`. The grid is created by the caller from decoded image
//! data, transformed in memory, and handed back for encoding.

use vstd::prelude::*;
use crate::color::Color;

verus! {

/// A 2D grid of colors, indexed by `(x, y)` with `x` in `[0, width)` and
/// `y` in `[0, height)`.
pub struct Image {
    width: usize,
    height: usize,
    pixels: Vec<Color>,
}

impl Image {
    /// The number of columns.
    pub closed spec fn spec_width(self) -> int {
        self.width as int
    }

    /// The number of rows.
    pub closed spec fn spec_height(self) -> int {
        self.height as int
    }

    /// Well-formed: the pixel store holds exactly one color per cell.
    pub closed spec fn wf(self) -> bool {
        self.pixels@.len() == self.width * self.height
    }

    /// The color of the cell at `(x, y)`.
    pub closed spec fn pixel(self, x: int, y: int) -> Color {
        self.pixels@[y * self.spec_width() + x]
    }

    /// Builds a grid of the given dimensions with every cell set to `fill`.
    pub fn new(width: usize, height: usize, fill: Color) -> (img: Image)
        requires
            width * height <= usize::MAX,
        ensures
            img.wf(),
            img.spec_width() == width,
            img.spec_height() == height,
            forall|x: int, y: int|
                0 <= x < width && 0 <= y < height ==> img.pixel(x, y) == fill,
    {
        let n: usize = width * height;
        let mut pixels: Vec<Color> = Vec::new();
        let mut i: usize = 0;
        while i < n
            invariant
                i <= n,
                pixels@.len() == i,
                forall|j: int| 0 <= j < i ==> pixels@[j] == fill,
            decreases n - i,
        {
            pixels.push(fill);
            i = i + 1;
        }
        let img = Image { width, height, pixels };
        proof {
            assert forall|x: int, y: int|
                0 <= x < width && 0 <= y < height implies img.pixel(x, y) == fill by {
                lemma_row_major_in_range(x, y, width as int, height as int);
            }
        }
        img
    }

    /// Builds a grid of the given dimensions over a row-major pixel store.
    pub fn from_pixels(width: usize, height: usize, pixels: Vec<Color>) -> (img: Image)
        requires
            pixels@.len() == width * height,
        ensures
            img.wf(),
            img.spec_width() == width,
            img.spec_height() == height,
            forall|x: int, y: int|
                0 <= x < width && 0 <= y < height ==> img.pixel(x, y) == pixels@[y * width + x],
    {
        Image { width, height, pixels }
    }

    /// The number of columns.
    pub fn width(&self) -> (w: usize)
        ensures
            w == self.spec_width(),
    {
        self.width
    }

    /// The number of rows.
    pub fn height(&self) -> (h: usize)
        ensures
            h == self.spec_height(),
    {
        self.height
    }

    /// The number of cells; it witnesses that `width * height` fits in `usize`.
    pub fn area(&self) -> (n: usize)
        requires
            self.wf(),
        ensures
            n == self.spec_width() * self.spec_height(),
    {
        self.pixels.len()
    }

    /// Reads the cell at `(x, y)`.
    pub fn get(&self, x: usize, y: usize) -> (c: Color)
        requires
            self.wf(),
            x < self.spec_width(),
            y < self.spec_height(),
        ensures
            c == self.pixel(x as int, y as int),
    {
        let n: usize = self.pixels.len();
        proof {
            lemma_row_major_in_range(x as int, y as int, self.spec_width(), self.spec_height());
        }
        assert(y * self.spec_width() + x < n);
        self.pixels[y * self.width + x]
    }

    /// Writes the cell at `(x, y)`, leaving every other cell unchanged.
    pub fn set(&mut self, x: usize, y: usize, c: Color)
        requires
            old(self).wf(),
            x < old(self).spec_width(),
            y < old(self).spec_height(),
        ensures
            final(self).wf(),
            final(self).spec_width() == old(self).spec_width(),
            final(self).spec_height() == old(self).spec_height(),
            final(self).pixel(x as int, y as int) == c,
            forall|i: int, j: int|
                0 <= i < old(self).spec_width() && 0 <= j < old(self).spec_height()
                    && !(i == x && j == y)
                    ==> final(self).pixel(i, j) == old(self).pixel(i, j),
    {
        let n: usize = self.pixels.len();
        proof {
            lemma_row_major_in_range(x as int, y as int, self.spec_width(), self.spec_height());
        }
        assert(y * self.spec_width() + x < n);
        let idx: usize = y * self.width + x;
        self.pixels.set(idx, c);
        proof {
            assert forall|i: int, j: int|
                0 <= i < old(self).spec_width() && 0 <= j < old(self).spec_height()
                    && !(i == x && j == y)
                    implies final(self).pixel(i, j) == old(self).pixel(i, j) by {
                lemma_row_major_in_range(i, j, old(self).spec_width(), old(self).spec_height());
                lemma_row_major_injective(
                    i, j, x as int, y as int, old(self).spec_width(),
                );
            }
        }
    }
}

/// A row-major index of an in-range cell lies inside the pixel store.
pub proof fn lemma_row_major_in_range(x: int, y: int, w: int, h: int)
    by (nonlinear_arith)
    requires
        0 <= x < w,
        0 <= y < h,
    ensures
        0 <= y * w + x < w * h,
{
}

/// Distinct in-range cells have distinct row-major indices.
pub proof fn lemma_row_major_injective(x1: int, y1: int, x2: int, y2: int, w: int)
    by (nonlinear_arith)
    requires
        0 <= x1 < w,
        0 <= x2 < w,
        0 <= y1,
        0 <= y2,
        !(x1 == x2 && y1 == y2),
    ensures
        y1 * w + x1 != y2 * w + x2,
{
}

} // verus!
