//! Decoding and encoding PNG streams. The bitstream work (chunks, filters,
//! compression) is done by the `png` crate; what is verified here is what is
//! asked of it and what is made of its answers.

use crate::error::{CrushError, Failure};
use crate::format::{Effort, PngColorType};
use crate::image::{expected_len, validated, ImageBuffer, ImageView, RawImage, RawImageView};
use vstd::prelude::*;

verus! {

/// The error of the `png` decoder. Nothing of its contents is used but its
/// words.
#[verifier::external_type_specification]
#[verifier::external_body]
pub struct ExDecodingError(png::DecodingError);

/// The error of the `png` encoder. Nothing of its contents is used but its
/// words.
#[verifier::external_type_specification]
#[verifier::external_body]
pub struct ExEncodingError(png::EncodingError);

/// What the `png` decoder, with its default limits and without output
/// transformations, makes of a byte stream: the header's width, height,
/// colour type and bit depth together with the first frame, or nothing
/// where it rejects the stream. The decoder does its size arithmetic in `usize`, so which
/// very large images it rejects goes by the word size of the target.
pub uninterp spec fn png_decoded(bytes: Seq<u8>) -> Option<RawImageView>;

/// The PNG stream that the `png` encoder writes for one frame of 8-bit
/// samples with the given header and compression level, or nothing where it
/// refuses the image.
pub uninterp spec fn png_encoded(
    width: u32,
    height: u32,
    color: PngColorType,
    effort: Effort,
    data: Seq<u8>,
) -> Option<Seq<u8>>;

/// Runs `png::Decoder::new(..).read_info()` on the bytes, copies width,
/// height, colour type and bit depth (as its number of bits) out of
/// `Reader::info()`, and reads the first frame with `Reader::next_frame`
/// into a buffer of `Reader::output_buffer_size()` bytes. Trusted: the outcome is the one that `png_decoded` names, which
/// claims no more than that the decoder's answer depends on the bytes alone.
#[verifier::external_body]
fn read_png(bytes: &[u8]) -> (r: Result<RawImage, png::DecodingError>)
    ensures
        match r {
            Ok(raw) => png_decoded(bytes@) == Some(raw@),
            Err(_) => png_decoded(bytes@) is None,
        },
{
    let mut reader = png::Decoder::new(bytes).read_info()?;
    let (width, height) = (reader.info().width, reader.info().height);
    let color = match reader.info().color_type {
        png::ColorType::Grayscale => PngColorType::Grayscale,
        png::ColorType::Rgb => PngColorType::Rgb,
        png::ColorType::Indexed => PngColorType::Indexed,
        png::ColorType::GrayscaleAlpha => PngColorType::GrayscaleAlpha,
        png::ColorType::Rgba => PngColorType::Rgba,
    };
    let depth = reader.info().bit_depth as u8;
    let mut data = vec![0; reader.output_buffer_size()];
    reader.next_frame(&mut data)?;
    Ok(RawImage { width, height, color, depth, data })
}

/// Runs `png::Encoder::new` on `out` with `set_color` and `set_compression`
/// as given, then `write_header` and `Writer::write_image_data`; the writer
/// ends the stream when it is dropped. Trusted: on success what was appended
/// to `out` is the stream that `png_encoded` names, and the encoder fails
/// exactly where that name is nothing. After a failure `out` may hold the
/// start of a stream. The bound keeps the encoder's own size arithmetic
/// within `usize`.
#[verifier::external_body]
fn write_png(
    out: &mut Vec<u8>,
    width: u32,
    height: u32,
    color: PngColorType,
    effort: Effort,
    data: &[u8],
) -> (r: Result<(), png::EncodingError>)
    requires
        expected_len(width, height) <= usize::MAX,
    ensures
        match r {
            Ok(_) => png_encoded(width, height, color, effort, data@) matches Some(stream)
                && final(out)@ == old(out)@ + stream,
            Err(_) => png_encoded(width, height, color, effort, data@) is None,
        },
{
    let mut encoder = png::Encoder::new(out, width, height);
    encoder.set_color(match color {
        PngColorType::Grayscale => png::ColorType::Grayscale,
        PngColorType::Rgb => png::ColorType::Rgb,
        PngColorType::Indexed => png::ColorType::Indexed,
        PngColorType::GrayscaleAlpha => png::ColorType::GrayscaleAlpha,
        PngColorType::Rgba => png::ColorType::Rgba,
    });
    encoder.set_compression(match effort {
        Effort::Default => png::Compression::Default,
        Effort::Fast => png::Compression::Fast,
        Effort::Best => png::Compression::Best,
    });
    encoder.write_header()?.write_image_data(data)
}

/// The words of a decoding error, through its `Display` impl. Nothing is
/// claimed of them.
#[verifier::external_body]
fn decoding_error_text(e: &png::DecodingError) -> String {
    e.to_string()
}

/// The words of an encoding error, through its `Display` impl. Nothing is
/// claimed of them.
#[verifier::external_body]
fn encoding_error_text(e: &png::EncodingError) -> String {
    e.to_string()
}

/// The outcome of decoding a stream into an image buffer: what the decoder
/// makes of the bytes, validated.
pub open spec fn decoded(bytes: Seq<u8>) -> Result<ImageView, Failure> {
    match png_decoded(bytes) {
        None => Err(Failure::Decode),
        Some(raw) => validated(raw),
    }
}

/// The outcome of encoding an image. Whatever the layout of the buffer, the
/// stream is tagged RGBA, and the highest compression level is asked for.
pub open spec fn encoded(image: ImageView) -> Result<Seq<u8>, Failure> {
    match png_encoded(image.width, image.height, PngColorType::Rgba, Effort::Best, image.data) {
        None => Err(Failure::Encode),
        Some(out) => Ok(out),
    }
}

/// Decodes a PNG stream and validates the image.
pub fn decode(bytes: &[u8]) -> (r: Result<ImageBuffer, CrushError>)
    ensures
        match r {
            Ok(image) => decoded(bytes@) == Ok::<ImageView, Failure>(image@),
            Err(e) => decoded(bytes@) == Err::<ImageView, Failure>(e@),
        },
{
    match read_png(bytes) {
        Ok(raw) => ImageBuffer::from_raw(raw),
        Err(e) => Err(CrushError::Decode { detail: decoding_error_text(&e) }),
    }
}

/// Encodes an image as a PNG stream with the image's own width and height.
pub fn encode(image: &ImageBuffer) -> (r: Result<Vec<u8>, CrushError>)
    ensures
        match r {
            Ok(out) => encoded(image@) == Ok::<Seq<u8>, Failure>(out@),
            Err(e) => encoded(image@) == Err::<Seq<u8>, Failure>(e@),
        },
{
    let data = image.data();
    let mut out: Vec<u8> = Vec::new();
    match write_png(&mut out, image.width(), image.height(), PngColorType::Rgba, Effort::Best, data) {
        Ok(_) => Ok(out),
        Err(e) => Err(CrushError::Encode { detail: encoding_error_text(&e) }),
    }
}

} // verus!
