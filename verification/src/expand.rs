//! The expander: scales an image by three, placing each input pixel at the
//! center of its 3x3 block and filling every other output cell with fully
//! transparent black.
//!
//! The expander visits output columns in the outer loop and rows in the
//! inner loop, handing each placement cell — both coordinates congruent to
//! 1 modulo 3 — the next input pixel in the matching column-by-column
//! order; the net effect is the direct mapping
//! `out(3x + 1, 3y + 1) = in(x, y)`. Placement cells and input pixels are
//! in bijection, so no placement cell is ever left without an input pixel
//! and no input pixel is dropped.

use vstd::prelude::*;
use crate::color::Color;
use crate::grid::Image;

verus! {

/// An output coordinate receives an input pixel exactly when both of its
/// components are congruent to 1 modulo 3.
pub open spec fn is_placement(ox: int, oy: int) -> bool {
    ox % 3 == 1 && oy % 3 == 1
}

/// Expands `img` to three times its width and height: the cell at
/// `(3x + 1, 3y + 1)` holds the input pixel `(x, y)`, and every other cell
/// holds fully transparent black.
pub fn expand_image(img: &Image) -> (out: Image)
    requires
        img.wf(),
        9 * img.spec_width() * img.spec_height() <= usize::MAX,
        3 * img.spec_width() <= usize::MAX,
        3 * img.spec_height() <= usize::MAX,
    ensures
        out.wf(),
        out.spec_width() == 3 * img.spec_width(),
        out.spec_height() == 3 * img.spec_height(),
        forall|ox: int, oy: int|
            0 <= ox < out.spec_width() && 0 <= oy < out.spec_height() && is_placement(ox, oy)
                ==> #[trigger] out.pixel(ox, oy) == img.pixel(ox / 3, oy / 3),
        forall|ox: int, oy: int|
            0 <= ox < out.spec_width() && 0 <= oy < out.spec_height() && !is_placement(ox, oy)
                ==> #[trigger] out.pixel(ox, oy) == (Color { r: 0u8, g: 0u8, b: 0u8, a: 0u8 }),
{
    let w: usize = img.width();
    let h: usize = img.height();
    let out_w: usize = 3 * w;
    let out_h: usize = 3 * h;
    assert(out_w * out_h <= usize::MAX) by (nonlinear_arith)
        requires
            out_w == 3 * w && out_h == 3 * h && 9 * w * h <= usize::MAX,
    ;
    let mut out: Image = Image::new(out_w, out_h, Color::transparent());
    let mut x: usize = 0;
    while x < w
        invariant
            img.wf(),
            w == img.spec_width(),
            h == img.spec_height(),
            out_w == 3 * w,
            out_h == 3 * h,
            out.wf(),
            out.spec_width() == out_w,
            out.spec_height() == out_h,
            x <= w,
            forall|ox: int, oy: int|
                0 <= ox < out_w && 0 <= oy < out_h && is_placement(ox, oy) && ox / 3 < x
                    ==> #[trigger] out.pixel(ox, oy) == img.pixel(ox / 3, oy / 3),
            forall|ox: int, oy: int|
                0 <= ox < out_w && 0 <= oy < out_h && !(is_placement(ox, oy) && ox / 3 < x)
                    ==> #[trigger] out.pixel(ox, oy) == (Color { r: 0u8, g: 0u8, b: 0u8, a: 0u8 }),
        decreases w - x,
    {
        let mut y: usize = 0;
        while y < h
            invariant
                img.wf(),
                w == img.spec_width(),
                h == img.spec_height(),
                out_w == 3 * w,
                out_h == 3 * h,
                out.wf(),
                out.spec_width() == out_w,
                out.spec_height() == out_h,
                x < w,
                y <= h,
                forall|ox: int, oy: int|
                    0 <= ox < out_w && 0 <= oy < out_h && is_placement(ox, oy)
                        && (ox / 3 < x || (ox / 3 == x && oy / 3 < y))
                        ==> #[trigger] out.pixel(ox, oy) == img.pixel(ox / 3, oy / 3),
                forall|ox: int, oy: int|
                    0 <= ox < out_w && 0 <= oy < out_h
                        && !(is_placement(ox, oy) && (ox / 3 < x || (ox / 3 == x && oy / 3 < y)))
                        ==> #[trigger] out.pixel(ox, oy) == (Color { r: 0u8, g: 0u8, b: 0u8, a: 0u8 }),
            decreases h - y,
        {
            let px: usize = 3 * x + 1;
            let py: usize = 3 * y + 1;
            assert(px < out_w && py < out_h);
            assert(px % 3 == 1 && py % 3 == 1 && px / 3 == x && py / 3 == y) by (nonlinear_arith)
                requires
                    px == 3 * x + 1 && py == 3 * y + 1,
            ;
            let c: Color = img.get(x, y);
            let ghost out_before = out;
            out.set(px, py, c);
            proof {
                assert forall|ox: int, oy: int|
                    0 <= ox < out_w && 0 <= oy < out_h && is_placement(ox, oy)
                        && (ox / 3 < x || (ox / 3 == x && oy / 3 < y + 1))
                        implies out.pixel(ox, oy) == img.pixel(ox / 3, oy / 3) by {
                    assert(ox == 3 * (ox / 3) + ox % 3);
                    assert(oy == 3 * (oy / 3) + oy % 3);
                    if ox / 3 == x && oy / 3 == y {
                        assert(ox == px && oy == py);
                    } else {
                        assert(!(ox == px && oy == py));
                        assert(out.pixel(ox, oy) == out_before.pixel(ox, oy));
                    }
                }
                assert forall|ox: int, oy: int|
                    0 <= ox < out_w && 0 <= oy < out_h
                        && !(is_placement(ox, oy) && (ox / 3 < x || (ox / 3 == x && oy / 3 < y + 1)))
                        implies out.pixel(ox, oy) == (Color { r: 0u8, g: 0u8, b: 0u8, a: 0u8 }) by {
                    assert(ox == 3 * (ox / 3) + ox % 3);
                    assert(oy == 3 * (oy / 3) + oy % 3);
                    assert(!(ox == px && oy == py));
                    assert(out.pixel(ox, oy) == out_before.pixel(ox, oy));
                }
            }
            y = y + 1;
        }
        proof {
            assert forall|ox: int, oy: int|
                0 <= ox < out_w && 0 <= oy < out_h && is_placement(ox, oy) && ox / 3 < x + 1
                    implies out.pixel(ox, oy) == img.pixel(ox / 3, oy / 3) by {
                assert(oy == 3 * (oy / 3) + oy % 3);
            }
            assert forall|ox: int, oy: int|
                0 <= ox < out_w && 0 <= oy < out_h && !(is_placement(ox, oy) && ox / 3 < x + 1)
                    implies out.pixel(ox, oy) == (Color { r: 0u8, g: 0u8, b: 0u8, a: 0u8 }) by {
                assert(oy == 3 * (oy / 3) + oy % 3);
            }
        }
        x = x + 1;
    }
    out
}

} // verus!
