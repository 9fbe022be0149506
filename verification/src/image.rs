//! Decoded images: what a decoder hands over, and the validated buffer that
//! the transform works on.

use crate::error::{CrushError, Failure};
use crate::format::{ColorFormat, PngColorType};
use crate::pixel::{crush_bytes, crushed_bytes};
use vstd::prelude::*;

verus! {

/// What a PNG decoder reports of a stream: the header's width, height,
/// colour type and bit depth (the number of bits of each sample), and the
/// bytes of the first frame. Nothing is known yet of how the five values fit
/// together.
#[derive(Debug, PartialEq, Eq)]
pub struct RawImage {
    pub width: u32,
    pub height: u32,
    pub color: PngColorType,
    pub depth: u8,
    pub data: Vec<u8>,
}

/// The mathematical content of a [`RawImage`].
pub struct RawImageView {
    pub width: u32,
    pub height: u32,
    pub color: PngColorType,
    pub depth: u8,
    pub data: Seq<u8>,
}

impl View for RawImage {
    type V = RawImageView;

    open spec fn view(&self) -> RawImageView {
        RawImageView {
            width: self.width,
            height: self.height,
            color: self.color,
            depth: self.depth,
            data: self.data@,
        }
    }
}

/// The mathematical content of an [`ImageBuffer`].
pub struct ImageView {
    pub width: u32,
    pub height: u32,
    pub layout: ColorFormat,
    pub data: Seq<u8>,
}

/// The number of bytes that an image of 8-bit four-channel pixels holds.
pub open spec fn expected_len(width: u32, height: u32) -> nat {
    (width as nat) * (height as nat) * 4
}

/// Whether a stream declares the one format that is accepted: RGBA with
/// eight bits to each channel.
pub open spec fn is_rgba8(color: PngColorType, depth: u8) -> bool {
    color == PngColorType::Rgba && depth == 8
}

/// The outcome of validating a decoded image: the format is tested first,
/// colour type and bit depth together, then the length of the data.
pub open spec fn validated(raw: RawImageView) -> Result<ImageView, Failure> {
    if !is_rgba8(raw.color, raw.depth) {
        Err(Failure::UnsupportedFormat { found: raw.color, depth: raw.depth })
    } else if raw.data.len() != expected_len(raw.width, raw.height) {
        Err(
            Failure::SizeMismatch {
                expected: expected_len(raw.width, raw.height),
                actual: raw.data.len(),
            },
        )
    } else {
        Ok(
            ImageView {
                width: raw.width,
                height: raw.height,
                layout: ColorFormat::Rgba,
                data: raw.data,
            },
        )
    }
}

/// The crushed image: same width and height, every pixel crushed, and with
/// it red and blue exchanged in the layout.
pub open spec fn crushed_image(image: ImageView) -> ImageView {
    ImageView {
        width: image.width,
        height: image.height,
        layout: image.layout.swapped(),
        data: crushed_bytes(image.data),
    }
}

/// An image of 8-bit four-channel pixels, row by row. The buffer holds
/// exactly `width * height * 4` bytes.
#[derive(Debug, PartialEq, Eq)]
pub struct ImageBuffer {
    width: u32,
    height: u32,
    layout: ColorFormat,
    data: Vec<u8>,
}

impl View for ImageBuffer {
    type V = ImageView;

    closed spec fn view(&self) -> ImageView {
        ImageView { width: self.width, height: self.height, layout: self.layout, data: self.data@ }
    }
}

impl ImageBuffer {
    #[verifier::type_invariant]
    spec fn well_formed(&self) -> bool {
        self.data@.len() == expected_len(self.width, self.height)
    }

    /// Validates a decoded image. Only RGBA with eight bits to each channel
    /// is accepted, and the data must hold four bytes for each pixel of the
    /// declared size, no more and no less.
    pub fn from_raw(raw: RawImage) -> (r: Result<ImageBuffer, CrushError>)
        ensures
            match r {
                Ok(image) => validated(raw@) == Ok::<ImageView, Failure>(image@),
                Err(e) => validated(raw@) == Err::<ImageView, Failure>(e@),
            },
    {
        let rgba = match raw.color {
            PngColorType::Rgba => true,
            _ => false,
        };
        if !rgba || raw.depth != 8 {
            return Err(CrushError::UnsupportedFormat { found: raw.color, depth: raw.depth });
        }
        assert((raw.width as nat) * (raw.height as nat) * 4 <= 0x4_0000_0000_0000_0000)
            by (nonlinear_arith)
            requires
                raw.width <= 0xffff_ffff,
                raw.height <= 0xffff_ffff,
        ;
        let expected: u128 = raw.width as u128 * raw.height as u128 * 4;
        let actual: usize = raw.data.len();
        if actual as u128 != expected {
            return Err(CrushError::SizeMismatch { expected, actual });
        }
        Ok(ImageBuffer { width: raw.width, height: raw.height, layout: ColorFormat::Rgba, data: raw.data })
    }

    /// The width in pixels.
    pub fn width(&self) -> (w: u32)
        ensures
            w == self@.width,
    {
        self.width
    }

    /// The height in pixels.
    pub fn height(&self) -> (h: u32)
        ensures
            h == self@.height,
    {
        self.height
    }

    /// The order of the channels in each pixel.
    pub fn layout(&self) -> (l: ColorFormat)
        ensures
            l == self@.layout,
    {
        self.layout
    }

    /// The pixels, four bytes each, row by row.
    pub fn data(&self) -> (d: &[u8])
        ensures
            d@ == self@.data,
            d@.len() == expected_len(self@.width, self@.height),
            d@.len() <= usize::MAX,
    {
        proof {
            use_type_invariant(self);
        }
        let d = self.data.as_slice();
        assert(d@.len() == d.len());  // the length of a slice is a `usize`
        d
    }

    /// Crushes every pixel, in the image's own buffer. Width and height stay
    /// as they are.
    pub fn crush(self) -> (out: ImageBuffer)
        ensures
            out@ == crushed_image(self@),
    {
        proof {
            use_type_invariant(&self);
        }
        let ImageBuffer { width, height, layout, mut data } = self;
        crush_bytes(&mut data);
        ImageBuffer { width, height, layout: layout.swap(), data }
    }

    /// Gives up the image for its pixels.
    pub fn into_data(self) -> (d: Vec<u8>)
        ensures
            d@ == self@.data,
            d@.len() == expected_len(self@.width, self@.height),
    {
        proof {
            use_type_invariant(&self);
        }
        self.data
    }
}

} // verus!
