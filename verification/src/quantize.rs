//! The quantizer: remaps every opaque pixel of an image to the nearest
//! palette entry under the distance metric, preserving alpha, and leaves
//! fully transparent pixels untouched.

use vstd::prelude::*;
use crate::color::{Color, color_distance, spec_color_distance};
use crate::grid::Image;
use crate::grid::lemma_row_major_in_range;

verus! {

/// The failure of the quantizer: it has no palette entry to map to.
#[derive(Clone, Copy, PartialEq, Eq, Structural, Debug)]
pub enum QuantizeError {
    EmptyPalette,
}

/// `idx` is the index the nearest-color search selects for `c` in `p`:
/// it is in range, no entry is strictly closer, and every earlier entry is
/// strictly farther. The last clause is the tie-break policy: on equal
/// distances the earliest entry wins, because the scan replaces the
/// candidate only on a strict `<`.
pub open spec fn is_nearest(c: Color, p: Seq<Color>, idx: int) -> bool {
    &&& 0 <= idx < p.len()
    &&& forall|j: int| 0 <= j < p.len() ==> spec_color_distance(c, p[idx]) <= spec_color_distance(c, p[j])
    &&& forall|j: int| 0 <= j < idx ==> spec_color_distance(c, p[j]) > spec_color_distance(c, p[idx])
}

/// The nearest-color search is deterministic: its contract pins one index.
pub proof fn lemma_nearest_unique(c: Color, p: Seq<Color>, idx1: int, idx2: int)
    requires
        is_nearest(c, p, idx1),
        is_nearest(c, p, idx2),
    ensures
        idx1 == idx2,
{
    if idx1 < idx2 {
        assert(spec_color_distance(c, p[idx1]) > spec_color_distance(c, p[idx2]));
        assert(spec_color_distance(c, p[idx1]) <= spec_color_distance(c, p[idx2]));
    }
    if idx2 < idx1 {
        assert(spec_color_distance(c, p[idx2]) > spec_color_distance(c, p[idx1]));
        assert(spec_color_distance(c, p[idx2]) <= spec_color_distance(c, p[idx1]));
    }
}

/// Tie-break: when two palette entries are equidistant from the pixel and
/// both reach the minimum, the search never selects the later one.
pub proof fn lemma_tie_break_earlier_wins(c: Color, p: Seq<Color>, idx: int, i: int, j: int)
    requires
        is_nearest(c, p, idx),
        0 <= i < j < p.len(),
        spec_color_distance(c, p[i]) == spec_color_distance(c, p[j]),
        forall|k: int| 0 <= k < p.len() ==> spec_color_distance(c, p[i]) <= spec_color_distance(c, p[k]),
    ensures
        idx <= i,
        idx != j,
{
    if idx > i {
        assert(spec_color_distance(c, p[i]) > spec_color_distance(c, p[idx]));
        assert(spec_color_distance(c, p[i]) <= spec_color_distance(c, p[idx]));
    }
}

/// Finds the index of the palette entry nearest to `c`, scanning in palette
/// order and keeping the earliest entry on ties.
pub fn nearest_color_index(c: &Color, palette: &Vec<Color>) -> (idx: usize)
    requires
        palette@.len() > 0,
    ensures
        is_nearest(*c, palette@, idx as int),
{
    let mut min_distance: u32 = color_distance(c, &palette[0]);
    let mut closest: usize = 0;
    let n: usize = palette.len();
    let mut i: usize = 1;
    while i < n
        invariant
            n == palette@.len(),
            1 <= i <= n,
            closest < i,
            min_distance == spec_color_distance(*c, palette@[closest as int]),
            forall|j: int| 0 <= j < i ==> min_distance <= spec_color_distance(*c, palette@[j]),
            forall|j: int| 0 <= j < closest ==> spec_color_distance(*c, palette@[j]) > min_distance,
        decreases n - i,
    {
        let d: u32 = color_distance(c, &palette[i]);
        if d < min_distance {
            min_distance = d;
            closest = i;
        }
        i = i + 1;
    }
    closest
}

/// `result` is what the quantizer makes of the single pixel `c` against
/// palette `p`: a fully transparent pixel is returned unchanged, and any
/// other pixel carries the RGB of the nearest palette entry and its own
/// original alpha.
pub open spec fn quantized_pixel(c: Color, p: Seq<Color>, result: Color) -> bool {
    if c.a == 0 {
        result == c
    } else {
        exists|i: int|
            is_nearest(c, p, i) && result == (Color {
                r: p[i].r,
                g: p[i].g,
                b: p[i].b,
                a: c.a,
            })
    }
}

/// Quantized pixels keep their alpha channel, and an opaque-at-all pixel
/// takes its RGB from some palette entry. (A fully transparent pixel keeps
/// its own RGB, which need not occur in the palette.)
pub proof fn lemma_quantized_rgb_from_palette(c: Color, p: Seq<Color>, result: Color)
    requires
        quantized_pixel(c, p, result),
    ensures
        result.a == c.a,
        c.a != 0 ==> exists|i: int|
            0 <= i < p.len() && result.r == p[i].r && result.g == p[i].g && result.b == p[i].b,
{
    if c.a != 0 {
        let i = choose|i: int|
            is_nearest(c, p, i) && result == (Color { r: p[i].r, g: p[i].g, b: p[i].b, a: c.a });
        assert(0 <= i < p.len() && result.r == p[i].r && result.g == p[i].g && result.b == p[i].b);
    }
}

/// A fully transparent pixel passes through the quantizer byte-identical.
pub proof fn lemma_transparent_unchanged(c: Color, p: Seq<Color>, result: Color)
    requires
        quantized_pixel(c, p, result),
        c.a == 0,
    ensures
        result == c,
{
}

/// Quantizes one pixel: unchanged if fully transparent, otherwise the RGB
/// of the nearest palette entry with the pixel's own alpha.
pub fn quantize_pixel(c: &Color, palette: &Vec<Color>) -> (result: Color)
    requires
        palette@.len() > 0,
    ensures
        quantized_pixel(*c, palette@, result),
{
    if c.a == 0 {
        *c
    } else {
        let idx: usize = nearest_color_index(c, palette);
        let chosen: Color = palette[idx];
        Color { r: chosen.r, g: chosen.g, b: chosen.b, a: c.a }
    }
}

/// Quantizes a whole image against `palette`: the result has the same
/// dimensions and every pixel is the quantization of the input pixel at the
/// same coordinate. An empty palette is reported as an error, and then no
/// output image exists.
pub fn change_colors(img: &Image, palette: &Vec<Color>) -> (result: Result<Image, QuantizeError>)
    requires
        img.wf(),
    ensures
        palette@.len() == 0 <==> result is Err,
        result is Err ==> result->Err_0 == QuantizeError::EmptyPalette,
        result is Ok ==> {
            let out = result->Ok_0;
            &&& out.wf()
            &&& out.spec_width() == img.spec_width()
            &&& out.spec_height() == img.spec_height()
            &&& forall|x: int, y: int|
                0 <= x < img.spec_width() && 0 <= y < img.spec_height()
                    ==> quantized_pixel(img.pixel(x, y), palette@, out.pixel(x, y))
        },
{
    if palette.len() == 0 {
        return Err(QuantizeError::EmptyPalette);
    }
    let w: usize = img.width();
    let h: usize = img.height();
    let area: usize = img.area();
    assert(w * h == area);
    let mut out: Image = Image::new(w, h, Color::transparent());
    let mut x: usize = 0;
    while x < w
        invariant
            img.wf(),
            palette@.len() > 0,
            w == img.spec_width(),
            h == img.spec_height(),
            out.wf(),
            out.spec_width() == w,
            out.spec_height() == h,
            x <= w,
            forall|i: int, j: int|
                0 <= i < x && 0 <= j < h
                    ==> quantized_pixel(img.pixel(i, j), palette@, out.pixel(i, j)),
        decreases w - x,
    {
        let mut y: usize = 0;
        while y < h
            invariant
                img.wf(),
                palette@.len() > 0,
                w == img.spec_width(),
                h == img.spec_height(),
                out.wf(),
                out.spec_width() == w,
                out.spec_height() == h,
                x < w,
                y <= h,
                forall|i: int, j: int|
                    0 <= i < x && 0 <= j < h
                        ==> quantized_pixel(img.pixel(i, j), palette@, out.pixel(i, j)),
                forall|j: int|
                    0 <= j < y
                        ==> quantized_pixel(img.pixel(x as int, j), palette@, out.pixel(x as int, j)),
            decreases h - y,
        {
            let q: Color = quantize_pixel(&img.get(x, y), palette);
            out.set(x, y, q);
            y = y + 1;
        }
        x = x + 1;
    }
    Ok(out)
}

} // verus!
