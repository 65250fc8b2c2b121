use recolor::color::Color;
use recolor::grid::Image;
use recolor::palette::reddit_palette;
use recolor::quantize::{change_colors, nearest_color_index, quantize_pixel, QuantizeError};

fn opaque(r: u8, g: u8, b: u8) -> Color {
    Color::new(r, g, b, 255)
}

#[test]
fn opaque_red_maps_to_nearer_entry() {
    // (255,0,0,255) against [(200,0,0),(0,0,200)]: 55^3 < 255^3 + 200^3.
    let palette = vec![opaque(200, 0, 0), opaque(0, 0, 200)];
    let result = quantize_pixel(&Color::new(255, 0, 0, 255), &palette);
    assert_eq!(result, Color::new(200, 0, 0, 255));
}

#[test]
fn transparent_pixel_unchanged() {
    let palette = vec![opaque(200, 0, 0), opaque(0, 0, 200)];
    let result = quantize_pixel(&Color::new(10, 10, 10, 0), &palette);
    assert_eq!(result, Color::new(10, 10, 10, 0));
}

#[test]
fn partial_alpha_is_recolored_and_kept() {
    let palette = vec![opaque(0, 0, 0), opaque(255, 255, 255)];
    let result = quantize_pixel(&Color::new(250, 250, 250, 128), &palette);
    assert_eq!(result, Color::new(255, 255, 255, 128));
}

#[test]
fn tie_break_picks_earlier_entry() {
    // (90,0,0) and (110,0,0) are both 10^3 away from (100,0,0).
    let palette = vec![opaque(90, 0, 0), opaque(110, 0, 0)];
    assert_eq!(nearest_color_index(&opaque(100, 0, 0), &palette), 0);
    let result = quantize_pixel(&Color::new(100, 0, 0, 77), &palette);
    assert_eq!(result, Color::new(90, 0, 0, 77));
}

#[test]
fn tie_break_duplicate_entries() {
    let palette = vec![opaque(5, 5, 5), opaque(5, 5, 5), opaque(5, 5, 5)];
    assert_eq!(nearest_color_index(&opaque(5, 5, 5), &palette), 0);
}

#[test]
fn nearest_index_exact() {
    let palette = vec![opaque(0, 0, 0), opaque(100, 100, 100), opaque(200, 200, 200)];
    assert_eq!(nearest_color_index(&opaque(140, 140, 140), &palette), 1);
    assert_eq!(nearest_color_index(&opaque(160, 160, 160), &palette), 2);
    assert_eq!(nearest_color_index(&opaque(1, 0, 0), &palette), 0);
}

#[test]
fn empty_palette_is_an_error() {
    let img = Image::new(2, 2, opaque(1, 2, 3));
    let palette: Vec<Color> = Vec::new();
    let result = change_colors(&img, &palette);
    assert!(matches!(result, Err(QuantizeError::EmptyPalette)));
}

#[test]
fn change_colors_whole_image() {
    let mut img = Image::new(2, 2, Color::new(0, 0, 0, 0));
    img.set(0, 0, Color::new(255, 0, 0, 255));
    img.set(1, 0, Color::new(10, 10, 10, 0));
    img.set(0, 1, Color::new(0, 10, 250, 200));
    img.set(1, 1, Color::new(190, 0, 0, 1));
    let palette = vec![opaque(200, 0, 0), opaque(0, 0, 200)];
    let out = change_colors(&img, &palette).unwrap();
    assert_eq!(out.width(), 2);
    assert_eq!(out.height(), 2);
    assert_eq!(out.get(0, 0), Color::new(200, 0, 0, 255));
    assert_eq!(out.get(1, 0), Color::new(10, 10, 10, 0));
    assert_eq!(out.get(0, 1), Color::new(0, 0, 200, 200));
    assert_eq!(out.get(1, 1), Color::new(200, 0, 0, 1));
}

#[test]
fn pure_red_against_fixed_palette() {
    // Among the 32 fixed entries, (255,69,0) is nearest to pure red:
    // its distance is 69^3, smaller than every other entry's.
    let palette = reddit_palette();
    let result = quantize_pixel(&Color::new(255, 0, 0, 255), &palette);
    assert_eq!(result, Color::new(0xff, 0x45, 0x00, 255));
}

#[test]
fn exact_palette_color_maps_to_itself() {
    let palette = reddit_palette();
    let black = quantize_pixel(&Color::new(0, 0, 0, 255), &palette);
    assert_eq!(black, Color::new(0, 0, 0, 255));
    let white = quantize_pixel(&Color::new(255, 255, 255, 200), &palette);
    assert_eq!(white, Color::new(255, 255, 255, 200));
}

#[test]
fn nonempty_palette_never_fails() {
    let img = Image::new(1, 1, Color::new(9, 9, 9, 9));
    let palette = vec![opaque(0, 0, 0)];
    assert!(change_colors(&img, &palette).is_ok());
}
