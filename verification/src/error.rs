//! What can go wrong while an image is crushed.

use crate::format::PngColorType;
use crate::text::{decimal, push_decimal};
use vstd::prelude::*;
use vstd::string::StringExecFns;

verus! {

/// The file operations that crushing a file consists of.
#[derive(Clone, Copy, Debug, PartialEq, Eq, Structural)]
pub enum IoStep {
    /// Opening the input file.
    OpenInput,
    /// Creating the output file.
    CreateOutput,
    /// Deleting the input file, in in-place mode.
    RemoveInput,
    /// Moving the output file to the input path, in in-place mode.
    RenameOutput,
}

impl IoStep {
    /// How a message on a failure of this operation begins.
    pub open spec fn complaint(self) -> Seq<char> {
        match self {
            IoStep::OpenInput => "Failed to open input file: "@,
            IoStep::CreateOutput => "Failed to create output file: "@,
            IoStep::RemoveInput => "Failed to remove input file: "@,
            IoStep::RenameOutput => "Failed to rename file: "@,
        }
    }

    /// How a message on a failure of this operation begins.
    pub fn complaint_str(self) -> (text: &'static str)
        ensures
            text@ == self.complaint(),
    {
        match self {
            IoStep::OpenInput => "Failed to open input file: ",
            IoStep::CreateOutput => "Failed to create output file: ",
            IoStep::RemoveInput => "Failed to remove input file: ",
            IoStep::RenameOutput => "Failed to rename file: ",
        }
    }
}

/// A failure of the pipeline. Nothing is retried: the first failure ends
/// the run.
#[derive(Debug, PartialEq, Eq)]
pub enum CrushError {
    /// A file operation failed; `detail` is what the system said.
    Io { step: IoStep, detail: String },
    /// The input could not be read through, or it is not a PNG stream that
    /// the decoder can read; `detail` holds the words of the system or of
    /// the decoder.
    Decode { detail: String },
    /// The stream declares pixels that are not 8-bit RGBA: `found` is the
    /// colour type and `depth` the number of bits of each sample.
    UnsupportedFormat { found: PngColorType, depth: u8 },
    /// The decoded buffer does not hold `width * height * 4` bytes.
    SizeMismatch { expected: u128, actual: usize },
    /// The encoder refused the image, or the encoded stream could not be
    /// written out; `detail` holds the words of the encoder or of the
    /// system.
    Encode { detail: String },
}

/// The mathematical content of a [`CrushError`]: the kind of failure and the
/// values that decide it. The words that come with a failure to decode or
/// to encode are no part of it.
pub enum Failure {
    Io { step: IoStep, detail: Seq<char> },
    Decode,
    UnsupportedFormat { found: PngColorType, depth: u8 },
    SizeMismatch { expected: nat, actual: nat },
    Encode,
}

impl View for CrushError {
    type V = Failure;

    open spec fn view(&self) -> Failure {
        match *self {
            CrushError::Io { step, detail } => Failure::Io { step, detail: detail@ },
            CrushError::Decode { .. } => Failure::Decode,
            CrushError::UnsupportedFormat { found, depth } => Failure::UnsupportedFormat {
                found,
                depth,
            },
            CrushError::SizeMismatch { expected, actual } => Failure::SizeMismatch {
                expected: expected as nat,
                actual: actual as nat,
            },
            CrushError::Encode { .. } => Failure::Encode,
        }
    }
}

impl CrushError {
    /// The message of the error. A failed file operation and a failure to
    /// decode or encode are named and followed by their detail; a rejected
    /// format is named by its bit depth, in decimal, and its colour type; a
    /// wrong buffer length is shown beside the expected one, both in decimal.
    pub open spec fn message_text(&self) -> Seq<char> {
        match *self {
            CrushError::Io { step, detail } => step.complaint() + detail@,
            CrushError::Decode { detail } => "Failed to read PNG data: "@ + detail@,
            CrushError::UnsupportedFormat { found, depth } =>
                "Expected an 8-bit RGBA image but found "@ + decimal(depth as nat) + "-bit "@
                    + found.name(),
            CrushError::SizeMismatch { expected, actual } => "Wrong data size, expected "@
                + decimal(expected as nat) + " but got "@ + decimal(actual as nat),
            CrushError::Encode { detail } => "Failed to write PNG data: "@ + detail@,
        }
    }

    /// The message of the error.
    pub fn message(&self) -> (text: String)
        ensures
            text@ == self.message_text(),
    {
        match self {
            CrushError::Io { step, detail } => {
                String::from_str(step.complaint_str()).concat(detail.as_str())
            },
            CrushError::Decode { detail } => {
                String::from_str("Failed to read PNG data: ").concat(detail.as_str())
            },
            CrushError::UnsupportedFormat { found, depth } => {
                let mut text = String::from_str("Expected an 8-bit RGBA image but found ");
                push_decimal(&mut text, *depth as u128);
                text.append("-bit ");
                text.append(found.as_str());
                text
            },
            CrushError::SizeMismatch { expected, actual } => {
                let mut text = String::from_str("Wrong data size, expected ");
                push_decimal(&mut text, *expected);
                text.append(" but got ");
                push_decimal(&mut text, *actual as u128);
                text
            },
            CrushError::Encode { detail } => {
                String::from_str("Failed to write PNG data: ").concat(detail.as_str())
            },
        }
    }
}

} // verus!
