//! Pixel colors for display drivers: fixed-width raw storage, binary,
//! grayscale and RGB color types, and the re-quantization of channels between
//! bit depths.

pub mod binary_color;
pub mod conversion;
pub mod gray_color;
pub mod pixel_color;
pub mod raw;
pub mod rgb_color;

pub use binary_color::BinaryColor;
pub use pixel_color::{IntoStorage, PixelColor};
pub use gray_color::{Coverage8, Gray2, Gray4, Gray8, GrayColor};
pub use rgb_color::{Rgb555, Rgb565, Rgb888, RgbColor};
