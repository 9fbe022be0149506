//! The pipeline on bytes: decode, validate, crush every pixel, encode.

use crate::codec::{decode, decoded, encode, encoded, png_decoded, png_encoded};
use crate::error::{CrushError, Failure};
use crate::format::{ColorFormat, Effort, PngColorType};
use crate::image::{crushed_image, expected_len, is_rgba8, ImageView, RawImageView};
use crate::pixel::crushed_bytes;
use vstd::prelude::*;

verus! {

/// The outcome of crushing a PNG stream. The first failure decides: a stream
/// that does not decode, then a format other than 8-bit RGBA, then a buffer
/// of the wrong length, then an image that the encoder refuses. Otherwise
/// the outcome is the stream that the encoder writes for the crushed image,
/// under the width and height that the decoder reported.
pub open spec fn crushed_png(input: Seq<u8>) -> Result<Seq<u8>, Failure> {
    match decoded(input) {
        Err(failure) => Err(failure),
        Ok(image) => encoded(crushed_image(image)),
    }
}

/// Crushes a PNG stream: decodes it, validates the image, crushes every
/// pixel and encodes the result.
pub fn crush_png(input: &[u8]) -> (r: Result<Vec<u8>, CrushError>)
    ensures
        match r {
            Ok(out) => crushed_png(input@) == Ok::<Seq<u8>, Failure>(out@),
            Err(e) => crushed_png(input@) == Err::<Seq<u8>, Failure>(e@),
        },
{
    let image = decode(input)?;
    encode(&image.crush())
}

/// A stream that declares anything but 8-bit RGBA is rejected as an
/// unsupported format, and the failure carries the colour type and the bit
/// depth found. The length of its data plays no part: RGBA with sixteen bits
/// to each channel is an unsupported format, not a wrong size.
pub proof fn lemma_other_format_is_rejected(input: Seq<u8>)
    ensures
        png_decoded(input) matches Some(raw) ==> (!is_rgba8(raw.color, raw.depth) ==> crushed_png(
            input,
        ) == Err::<Seq<u8>, Failure>(
            Failure::UnsupportedFormat { found: raw.color, depth: raw.depth },
        )),
{
}

/// An 8-bit RGBA image whose decoded data does not hold four bytes for each
/// pixel of the declared size is rejected, and the failure carries both
/// lengths.
pub proof fn lemma_wrong_size_is_rejected(input: Seq<u8>)
    ensures
        png_decoded(input) matches Some(raw) ==> (is_rgba8(raw.color, raw.depth)
            && raw.data.len() != expected_len(raw.width, raw.height) ==> crushed_png(input) == Err::<
            Seq<u8>,
            Failure,
        >(
            Failure::SizeMismatch {
                expected: expected_len(raw.width, raw.height),
                actual: raw.data.len(),
            },
        )),
{
}

/// Whether the codec reads back what it wrote: the stream that it encodes
/// for an 8-bit RGBA image decodes to the same width, height, colour type,
/// bit depth and data.
pub open spec fn reads_back(image: ImageView) -> bool {
    png_encoded(image.width, image.height, PngColorType::Rgba, Effort::Best, image.data)
        matches Some(stream) ==> png_decoded(stream) == Some(
        RawImageView {
            width: image.width,
            height: image.height,
            color: PngColorType::Rgba,
            depth: 8,
            data: image.data,
        },
    )
}

/// Crushing keeps the shape of an image. The encoder is handed the width and
/// height that the decoder reported, so wherever the codec reads back what
/// it wrote, the crushed stream decodes to an image of the same width and
/// height as the input, holding the crushed pixels. The stream is tagged
/// RGBA although its pixels are laid out blue first: read back, the crushed
/// pixels pass for RGBA.
pub proof fn lemma_crush_png_keeps_shape(input: Seq<u8>)
    ensures
        crushed_png(input) is Ok ==> decoded(input) is Ok,
        crushed_png(input) is Ok && reads_back(crushed_image(decoded(input)->Ok_0)) ==> {
            let image = decoded(input)->Ok_0;
            let again = decoded(crushed_png(input)->Ok_0);
            &&& again is Ok
            &&& again->Ok_0.width == image.width
            &&& again->Ok_0.height == image.height
            &&& again->Ok_0.data == crushed_bytes(image.data)
            &&& again->Ok_0.layout == ColorFormat::Rgba
            &&& crushed_image(image).layout == ColorFormat::Bgra
        },
{
}

} // verus!
