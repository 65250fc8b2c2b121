use recolor::color::Color;
use recolor::grid::Image;

#[test]
fn new_fills_every_cell() {
    let fill = Color::new(7, 8, 9, 10);
    let img = Image::new(3, 2, fill);
    assert_eq!(img.width(), 3);
    assert_eq!(img.height(), 2);
    for x in 0..3 {
        for y in 0..2 {
            assert_eq!(img.get(x, y), fill);
        }
    }
}

#[test]
fn set_changes_only_one_cell() {
    let fill = Color::new(0, 0, 0, 0);
    let mut img = Image::new(4, 4, fill);
    let c = Color::new(1, 2, 3, 4);
    img.set(2, 3, c);
    for x in 0..4 {
        for y in 0..4 {
            if x == 2 && y == 3 {
                assert_eq!(img.get(x, y), c);
            } else {
                assert_eq!(img.get(x, y), fill);
            }
        }
    }
}

#[test]
fn from_pixels_is_row_major() {
    let pixels = vec![
        Color::new(1, 0, 0, 255),
        Color::new(2, 0, 0, 255),
        Color::new(3, 0, 0, 255),
        Color::new(4, 0, 0, 255),
        Color::new(5, 0, 0, 255),
        Color::new(6, 0, 0, 255),
    ];
    let img = Image::from_pixels(3, 2, pixels);
    assert_eq!(img.get(0, 0).r, 1);
    assert_eq!(img.get(1, 0).r, 2);
    assert_eq!(img.get(2, 0).r, 3);
    assert_eq!(img.get(0, 1).r, 4);
    assert_eq!(img.get(1, 1).r, 5);
    assert_eq!(img.get(2, 1).r, 6);
}

#[test]
fn area_matches_dimensions() {
    let img = Image::new(5, 7, Color::new(0, 0, 0, 0));
    assert_eq!(img.area(), 35);
}
