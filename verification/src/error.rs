//! The failures a thumbnail request can end in.

use vstd::prelude::*;
use vstd::string::StringExecFns;

verus! {

/// The one terminal failure of a request. Each variant belongs to one stage;
/// those with text carry the detail that the failing stage reported.
#[derive(Debug, PartialEq, Eq)]
pub enum ThumbnailError {
    /// The source file is missing or unreadable.
    IoOpen(String),
    /// The header names a format outside the supported set, or none at all;
    /// carries the name of the format, `unknown` where none was recognised.
    UnsupportedFormat(String),
    /// The header was accepted but the body could not be decoded.
    Decode(String),
    /// The decoded image has no pixels to cut a square from.
    CropGeometry,
    /// The target size is invalid or the resampling backend failed.
    Resize(String),
    /// The encoding backend failed.
    Encode(String),
    /// The destination could not be written.
    IoWrite(String),
    /// The mode literal is none of the three known ones; carries the literal.
    UnknownMode(String),
    /// An overwrite was requested without a known source format.
    MissingOriginalFormat,
}

/// Mathematical value of a [`ThumbnailError`].
pub enum Failure {
    IoOpen(Seq<char>),
    UnsupportedFormat(Seq<char>),
    Decode(Seq<char>),
    CropGeometry,
    Resize(Seq<char>),
    Encode(Seq<char>),
    IoWrite(Seq<char>),
    UnknownMode(Seq<char>),
    MissingOriginalFormat,
}

impl View for ThumbnailError {
    type V = Failure;

    open spec fn view(&self) -> Failure {
        match self {
            ThumbnailError::IoOpen(d) => Failure::IoOpen(d@),
            ThumbnailError::UnsupportedFormat(d) => Failure::UnsupportedFormat(d@),
            ThumbnailError::Decode(d) => Failure::Decode(d@),
            ThumbnailError::CropGeometry => Failure::CropGeometry,
            ThumbnailError::Resize(d) => Failure::Resize(d@),
            ThumbnailError::Encode(d) => Failure::Encode(d@),
            ThumbnailError::IoWrite(d) => Failure::IoWrite(d@),
            ThumbnailError::UnknownMode(d) => Failure::UnknownMode(d@),
            ThumbnailError::MissingOriginalFormat => Failure::MissingOriginalFormat,
        }
    }
}

impl Failure {
    /// The words that open the message of this failure and name its stage.
    pub open spec fn heading(self) -> Seq<char> {
        match self {
            Failure::IoOpen(_) => "Could not open image: "@,
            Failure::UnsupportedFormat(_) => "Unsupported image format: "@,
            Failure::Decode(_) => "Could not decode image: "@,
            Failure::CropGeometry => "Could not crop image: "@,
            Failure::Resize(_) => "Could not resize image: "@,
            Failure::Encode(_) => "Could not encode image: "@,
            Failure::IoWrite(_) => "Could not write image: "@,
            Failure::UnknownMode(_) => "Unknown mode: "@,
            Failure::MissingOriginalFormat => "Could not overwrite image: "@,
        }
    }

    /// The detail that follows the heading.
    pub open spec fn detail(self) -> Seq<char> {
        match self {
            Failure::IoOpen(d) => d,
            Failure::UnsupportedFormat(d) => d,
            Failure::Decode(d) => d,
            Failure::CropGeometry => "the image has no pixels"@,
            Failure::Resize(d) => d,
            Failure::Encode(d) => d,
            Failure::IoWrite(d) => d,
            Failure::UnknownMode(d) => d,
            Failure::MissingOriginalFormat => "the original format is not known"@,
        }
    }

    /// The whole message: heading, then detail.
    pub open spec fn message(self) -> Seq<char> {
        self.heading() + self.detail()
    }
}

impl ThumbnailError {
    /// The text handed to the caller: a heading that names the failing stage,
    /// followed by the detail of the failure.
    pub fn message(&self) -> (text: String)
        ensures
            text@ == self@.message(),
    {
        match self {
            ThumbnailError::IoOpen(d) => String::from_str("Could not open image: ").concat(
                d.as_str(),
            ),
            ThumbnailError::UnsupportedFormat(d) => String::from_str(
                "Unsupported image format: ",
            ).concat(d.as_str()),
            ThumbnailError::Decode(d) => String::from_str("Could not decode image: ").concat(
                d.as_str(),
            ),
            ThumbnailError::CropGeometry => String::from_str("Could not crop image: ").concat(
                "the image has no pixels",
            ),
            ThumbnailError::Resize(d) => String::from_str("Could not resize image: ").concat(
                d.as_str(),
            ),
            ThumbnailError::Encode(d) => String::from_str("Could not encode image: ").concat(
                d.as_str(),
            ),
            ThumbnailError::IoWrite(d) => String::from_str("Could not write image: ").concat(
                d.as_str(),
            ),
            ThumbnailError::UnknownMode(d) => String::from_str("Unknown mode: ").concat(d.as_str()),
            ThumbnailError::MissingOriginalFormat => String::from_str(
                "Could not overwrite image: ",
            ).concat("the original format is not known"),
        }
    }
}

} // verus!
