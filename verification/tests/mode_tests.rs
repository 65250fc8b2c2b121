use recolor::mode::{parse_mode, Mode};

#[test]
fn convert_colors_is_recognized() {
    assert_eq!(parse_mode("convert_colors"), Mode::ConvertColors);
}

#[test]
fn expand_is_recognized() {
    assert_eq!(parse_mode("expand"), Mode::Expand);
}

#[test]
fn unknown_mode_is_invalid() {
    assert_eq!(parse_mode("foo"), Mode::Invalid);
    assert_eq!(parse_mode(""), Mode::Invalid);
    assert_eq!(parse_mode("Convert_Colors"), Mode::Invalid);
    assert_eq!(parse_mode("expand "), Mode::Invalid);
}
