//! Colour formats: how the bytes of a pixel are laid out in memory, and what
//! a PNG stream declares its pixels to be.

use vstd::prelude::*;

verus! {

/// The order of the four 8-bit channels of a pixel in an image buffer.
#[derive(Clone, Copy, Debug, PartialEq, Eq, Structural)]
pub enum ColorFormat {
    /// Red, green, blue, alpha.
    Rgba,
    /// Blue, green, red, alpha.
    Bgra,
}

impl ColorFormat {
    /// The format with red and blue exchanged.
    pub open spec fn swapped(self) -> ColorFormat {
        match self {
            ColorFormat::Rgba => ColorFormat::Bgra,
            ColorFormat::Bgra => ColorFormat::Rgba,
        }
    }

    /// Exchanges red and blue.
    pub fn swap(self) -> (out: ColorFormat)
        ensures
            out == self.swapped(),
    {
        match self {
            ColorFormat::Rgba => ColorFormat::Bgra,
            ColorFormat::Bgra => ColorFormat::Rgba,
        }
    }
}

/// The colour type that the header of a PNG stream declares.
#[derive(Clone, Copy, Debug, PartialEq, Eq, Structural)]
pub enum PngColorType {
    /// One grey sample.
    Grayscale,
    /// Red, green and blue samples.
    Rgb,
    /// One palette index.
    Indexed,
    /// A grey sample and an alpha sample.
    GrayscaleAlpha,
    /// Red, green, blue and alpha samples.
    Rgba,
}

impl PngColorType {
    /// The name of the colour type, as messages show it.
    pub open spec fn name(self) -> Seq<char> {
        match self {
            PngColorType::Grayscale => "Grayscale"@,
            PngColorType::Rgb => "Rgb"@,
            PngColorType::Indexed => "Indexed"@,
            PngColorType::GrayscaleAlpha => "GrayscaleAlpha"@,
            PngColorType::Rgba => "Rgba"@,
        }
    }

    /// The name of the colour type.
    pub fn as_str(self) -> (name: &'static str)
        ensures
            name@ == self.name(),
    {
        match self {
            PngColorType::Grayscale => "Grayscale",
            PngColorType::Rgb => "Rgb",
            PngColorType::Indexed => "Indexed",
            PngColorType::GrayscaleAlpha => "GrayscaleAlpha",
            PngColorType::Rgba => "Rgba",
        }
    }
}

/// How hard the encoder tries to make the stream small.
#[derive(Clone, Copy, Debug, PartialEq, Eq, Structural)]
pub enum Effort {
    /// The encoder's default level.
    Default,
    /// Minimal compression, for speed.
    Fast,
    /// The highest level on offer.
    Best,
}

} // verus!
