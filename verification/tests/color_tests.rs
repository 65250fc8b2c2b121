use recolor::color::{color_distance, Color};

#[test]
fn distance_to_self_is_zero() {
    let c = Color::new(12, 200, 7, 255);
    assert_eq!(color_distance(&c, &c), 0);
}

#[test]
fn distance_is_symmetric() {
    let a = Color::new(10, 250, 3, 255);
    let b = Color::new(200, 0, 90, 0);
    assert_eq!(color_distance(&a, &b), color_distance(&b, &a));
}

#[test]
fn distance_exact_single_channel() {
    // |255 - 200|^3 = 55^3 = 166375 on the red channel alone.
    let a = Color::new(255, 0, 0, 255);
    let b = Color::new(200, 0, 0, 255);
    assert_eq!(color_distance(&a, &b), 166_375);
}

#[test]
fn distance_exact_multi_channel() {
    // |255 - 0|^3 + |0 - 0|^3 + |0 - 200|^3 = 16581375 + 8000000.
    let a = Color::new(255, 0, 0, 255);
    let b = Color::new(0, 0, 200, 255);
    assert_eq!(color_distance(&a, &b), 24_581_375);
}

#[test]
fn distance_ignores_alpha() {
    let a = Color::new(1, 2, 3, 0);
    let b = Color::new(1, 2, 3, 255);
    assert_eq!(color_distance(&a, &b), 0);
}

#[test]
fn distance_maximum_fits() {
    let a = Color::new(255, 255, 255, 255);
    let b = Color::new(0, 0, 0, 255);
    assert_eq!(color_distance(&a, &b), 3 * 16_581_375);
}
