//! Pixel formats of a camera stack: a four-character code paired with a
//! 64-bit layout modifier, and an ordered collection of such formats.
//!
//! The values are plain data. Talking to the native camera stack (asking it
//! to render a format, reading a list of formats out of its memory) is left to
//! the caller, who hands this crate bytes and formats and gets verified
//! answers back.

pub mod drm;
pub mod pixel_format;
pub mod pixel_formats;
pub mod text;

pub use pixel_format::PixelFormat;
pub use pixel_formats::{PixelFormats, PixelFormatsIterator};
