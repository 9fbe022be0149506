//! Crushing PNG images: an 8-bit RGBA image is decoded, every pixel has its
//! red and blue channels exchanged and its colour channels premultiplied by
//! alpha, and the result is encoded again as a PNG.
//!
//! The library works on bytes and plain values. File access is left to the
//! caller, which asks [`crush`] what to do next and reports back what
//! happened.

pub mod codec;
pub mod config;
pub mod crush;
pub mod error;
pub mod format;
pub mod image;
pub mod pipeline;
pub mod pixel;
pub mod text;

pub use crate::codec::{decode, encode};
pub use crate::config::Config;
pub use crate::crush::{crush, Action, Event, FileError};
pub use crate::error::{CrushError, IoStep};
pub use crate::format::{ColorFormat, Effort, PngColorType};
pub use crate::image::{ImageBuffer, RawImage};
pub use crate::pipeline::crush_png;
pub use crate::pixel::{crush_bytes, scale, Pixel};
