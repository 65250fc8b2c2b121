//! Palette quantization and 3x pixel expansion for raster images.
//!
//! The library holds the whole transformation logic: the color type and its
//! distance metric, the fixed 32-entry palette, the quantizer that remaps
//! every opaque pixel to the nearest palette entry, the expander that scales
//! an image by three with transparent padding, and the mode dispatch.
//! Decoding and encoding image files is left to the caller, which hands the
//! library a plain pixel grid and takes one back.

pub mod color;
pub mod expand;
pub mod grid;
pub mod mode;
pub mod palette;
pub mod quantize;

pub use color::Color;
pub use grid::Image;
pub use mode::Mode;
pub use quantize::QuantizeError;
