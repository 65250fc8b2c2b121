//! The color type and the distance metric of the quantizer.
//!
//! The metric cubes each signed channel difference, takes the absolute value,
//! and sums the three channels; the dissimilarity score is the cube root of
//! that sum. The cube root is strictly increasing on non-negative reals, so
//! every comparison of two scores — including the strict `<` that decides
//! ties — comes out the same on the cubed sums. The library therefore
//! computes and reasons about the integer cubed sum, and no floating-point
//! value ever arises.

use vstd::prelude::*;

verus! {

/// One pixel: red, green, blue and alpha, each an 8-bit channel.
#[derive(Clone, Copy, PartialEq, Eq, Structural, Debug)]
pub struct Color {
    pub r: u8,
    pub g: u8,
    pub b: u8,
    pub a: u8,
}

impl Color {
    /// Builds a color from its four channels.
    pub fn new(r: u8, g: u8, b: u8, a: u8) -> (c: Color)
        ensures
            c == (Color { r, g, b, a }),
    {
        Color { r, g, b, a }
    }

    /// Fully transparent black, the padding color of the expander.
    pub fn transparent() -> (c: Color)
        ensures
            c == (Color { r: 0u8, g: 0u8, b: 0u8, a: 0u8 }),
    {
        Color { r: 0, g: 0, b: 0, a: 0 }
    }
}

/// The absolute value of the cube of `d`.
pub open spec fn abs_cube(d: int) -> int {
    if d * d * d >= 0 {
        d * d * d
    } else {
        -(d * d * d)
    }
}

/// The distance metric between two colors: the sum over the red, green and
/// blue channels of the absolute cubed signed difference. Alpha is ignored.
/// This is the cube of the dissimilarity score; the cube root being strictly
/// increasing, it orders every pair of distances identically.
pub open spec fn spec_color_distance(a: Color, b: Color) -> int {
    abs_cube(a.r - b.r) + abs_cube(a.g - b.g) + abs_cube(a.b - b.b)
}

proof fn lemma_abs_cube_bound(d: int)
    requires
        -255 <= d <= 255,
    ensures
        0 <= abs_cube(d) <= 0xfd2ff9,
{
    assert(-0xfd2ff9 <= d * d * d <= 0xfd2ff9) by (nonlinear_arith)
        requires
            -255 <= d <= 255,
    ;
}

/// The distance between any two colors fits well inside `u32`.
pub proof fn lemma_distance_bound(a: Color, b: Color)
    ensures
        0 <= spec_color_distance(a, b) <= 0x2f78feb,
{
    lemma_abs_cube_bound(a.r - b.r);
    lemma_abs_cube_bound(a.g - b.g);
    lemma_abs_cube_bound(a.b - b.b);
}

/// The distance metric ignores which of the two colors comes first: the
/// channel differences change sign, and the absolute value of the cube
/// swallows the sign.
pub proof fn lemma_distance_symmetric(a: Color, b: Color)
    ensures
        spec_color_distance(a, b) == spec_color_distance(b, a),
{
    lemma_abs_cube_neg(a.r - b.r);
    lemma_abs_cube_neg(a.g - b.g);
    lemma_abs_cube_neg(a.b - b.b);
}

proof fn lemma_abs_cube_neg(d: int)
    ensures
        abs_cube(d) == abs_cube(-d),
{
    assert((-d) * (-d) * (-d) == -(d * d * d)) by (nonlinear_arith);
}

/// The distance of a color to itself is zero.
pub proof fn lemma_distance_self_zero(c: Color)
    ensures
        spec_color_distance(c, c) == 0,
{
}

/// Computes the distance metric between two colors.
pub fn color_distance(a: &Color, b: &Color) -> (d: u32)
    ensures
        d == spec_color_distance(*a, *b),
{
    proof {
        lemma_distance_bound(*a, *b);
    }
    let dr: i32 = a.r as i32 - b.r as i32;
    let dg: i32 = a.g as i32 - b.g as i32;
    let db: i32 = a.b as i32 - b.b as i32;
    abs_cube_exec(dr) + abs_cube_exec(dg) + abs_cube_exec(db)
}

fn abs_cube_exec(d: i32) -> (r: u32)
    requires
        -255 <= d <= 255,
    ensures
        r == abs_cube(d as int),
{
    assert(0 <= d * d <= 0xfe01) by (nonlinear_arith)
        requires
            -255 <= d <= 255,
    ;
    let sq: i32 = d * d;
    assert(-0xfd2ff9 <= sq * d <= 0xfd2ff9) by (nonlinear_arith)
        requires
            0 <= sq <= 0xfe01 && -255 <= d <= 255,
    ;
    let cube: i32 = sq * d;
    if cube >= 0 {
        cube as u32
    } else {
        (-cube) as u32
    }
}

} // verus!
