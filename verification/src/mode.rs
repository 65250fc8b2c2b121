//! The driver's decision: which operation a mode string selects.
//!
//! The caller parses its command line, hands the mode string here, and
//! only loads or saves an image when the answer names an operation; an
//! unrecognized string yields `Invalid`, on which the caller reports the
//! invalid mode and touches no file.

use vstd::prelude::*;

verus! {

/// The operation a mode string selects.
#[derive(Clone, Copy, PartialEq, Eq, Structural, Debug)]
pub enum Mode {
    /// Quantize every opaque pixel to the nearest palette entry.
    ConvertColors,
    /// Scale the image by three with transparent padding.
    Expand,
    /// The mode string names no operation.
    Invalid,
}

/// Maps a mode string to its operation: exactly `"convert_colors"` selects
/// quantization, exactly `"expand"` selects expansion, and every other
/// string is invalid.
pub fn parse_mode(mode: &str) -> (m: Mode)
    ensures
        m == Mode::ConvertColors <==> mode@ == "convert_colors"@,
        m == Mode::Expand <==> mode@ == "expand"@,
        m == Mode::Invalid <==> (mode@ != "convert_colors"@ && mode@ != "expand"@),
{
    proof {
        reveal_strlit("convert_colors");
        reveal_strlit("expand");
        assert("convert_colors"@.len() == 14);
        assert("expand"@.len() == 6);
        assert("convert_colors"@ != "expand"@);
    }
    let given = String::from_str(mode);
    if given == String::from_str("convert_colors") {
        Mode::ConvertColors
    } else if given == String::from_str("expand") {
        Mode::Expand
    } else {
        Mode::Invalid
    }
}

} // verus!
