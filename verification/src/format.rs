//! Recognising the encoding of a file from its leading bytes, and the set of
//! encodings that are accepted.

use vstd::prelude::*;
use vstd::string::StringExecFns;
use crate::error::{Failure, ThumbnailError};
use crate::text::same_text;

verus! {

/// The encodings that can be read and written.
#[derive(Clone, Copy, Debug, PartialEq, Eq, Structural)]
pub enum ImageKind {
    Jpeg,
    Png,
    Gif,
    WebP,
    Bmp,
    Ico,
    Tiff,
}

impl ImageKind {
    /// The name under which the format detector reports this encoding.
    pub open spec fn label_spec(self) -> Seq<char> {
        match self {
            ImageKind::Jpeg => "Jpeg"@,
            ImageKind::Png => "Png"@,
            ImageKind::Gif => "Gif"@,
            ImageKind::WebP => "WebP"@,
            ImageKind::Bmp => "Bmp"@,
            ImageKind::Ico => "Ico"@,
            ImageKind::Tiff => "Tiff"@,
        }
    }

    /// The name under which the format detector reports this encoding.
    pub fn label(&self) -> (text: &'static str)
        ensures
            text@ == self.label_spec(),
    {
        match self {
            ImageKind::Jpeg => "Jpeg",
            ImageKind::Png => "Png",
            ImageKind::Gif => "Gif",
            ImageKind::WebP => "WebP",
            ImageKind::Bmp => "Bmp",
            ImageKind::Ico => "Ico",
            ImageKind::Tiff => "Tiff",
        }
    }
}

/// The supported encoding that a detector name stands for, if any.
pub open spec fn kind_of(label: Seq<char>) -> Option<ImageKind> {
    if label == "Jpeg"@ {
        Some(ImageKind::Jpeg)
    } else if label == "Png"@ {
        Some(ImageKind::Png)
    } else if label == "Gif"@ {
        Some(ImageKind::Gif)
    } else if label == "WebP"@ {
        Some(ImageKind::WebP)
    } else if label == "Bmp"@ {
        Some(ImageKind::Bmp)
    } else if label == "Ico"@ {
        Some(ImageKind::Ico)
    } else if label == "Tiff"@ {
        Some(ImageKind::Tiff)
    } else {
        None
    }
}

/// The outcome of detection, given what the detector made of the header:
/// the name of a format, or nothing.
pub open spec fn format_verdict(guess: Option<Seq<char>>) -> Result<ImageKind, Failure> {
    match guess {
        None => Err(Failure::UnsupportedFormat("unknown"@)),
        Some(label) => match kind_of(label) {
            Some(kind) => Ok(kind),
            None => Err(Failure::UnsupportedFormat(label)),
        },
    }
}

/// The characters of an optional piece of text.
pub open spec fn text_of(text: Option<String>) -> Option<Seq<char>> {
    match text {
        Some(t) => Some(t@),
        None => None,
    }
}

/// Looks a detector name up in the supported set.
pub fn supported_kind(label: &str) -> (kind: Option<ImageKind>)
    ensures
        kind == kind_of(label@),
{
    if same_text(label, "Jpeg") {
        Some(ImageKind::Jpeg)
    } else if same_text(label, "Png") {
        Some(ImageKind::Png)
    } else if same_text(label, "Gif") {
        Some(ImageKind::Gif)
    } else if same_text(label, "WebP") {
        Some(ImageKind::WebP)
    } else if same_text(label, "Bmp") {
        Some(ImageKind::Bmp)
    } else if same_text(label, "Ico") {
        Some(ImageKind::Ico)
    } else if same_text(label, "Tiff") {
        Some(ImageKind::Tiff)
    } else {
        None
    }
}

/// Decides on what the detector made of a header. A name from the supported
/// set is accepted. Any other name is rejected under that name, and a header
/// that the detector could not place is rejected as `unknown`.
pub fn classify_format(guess: Option<String>) -> (verdict: Result<ImageKind, ThumbnailError>)
    ensures
        match format_verdict(text_of(guess)) {
            Ok(kind) => verdict == Ok::<ImageKind, ThumbnailError>(kind),
            Err(failure) => verdict is Err && verdict->Err_0@ == failure,
        },
{
    match guess {
        None => Err(ThumbnailError::UnsupportedFormat(String::from_str("unknown"))),
        Some(label) => match supported_kind(label.as_str()) {
            Some(kind) => Ok(kind),
            None => Err(ThumbnailError::UnsupportedFormat(label)),
        },
    }
}

/// Whether `bytes` opens with `signature`.
pub open spec fn starts_with(bytes: Seq<u8>, signature: Seq<u8>) -> bool {
    bytes.len() >= signature.len() && bytes.take(signature.len() as int) == signature
}

/// The supported encoding whose signature the leading bytes carry, if any:
///
/// - PNG: `89 "PNG" 0D 0A 1A 0A`
/// - JPEG: `FF D8 FF`
/// - GIF: `"GIF89a"` or `"GIF87a"`
/// - WebP: `"RIFF"`, four bytes of any value, `"WEBP"`
/// - TIFF: `"MM" 00 2A` or `"II" 2A 00`
/// - BMP: `"BM"`
/// - ICO: `00 00 01 00`
pub open spec fn signature_kind(bytes: Seq<u8>) -> Option<ImageKind> {
    if starts_with(bytes, seq![0x89u8, 0x50, 0x4e, 0x47, 0x0d, 0x0a, 0x1a, 0x0a]) {
        Some(ImageKind::Png)
    } else if starts_with(bytes, seq![0xffu8, 0xd8, 0xff]) {
        Some(ImageKind::Jpeg)
    } else if starts_with(bytes, seq![0x47u8, 0x49, 0x46, 0x38, 0x39, 0x61]) || starts_with(
        bytes,
        seq![0x47u8, 0x49, 0x46, 0x38, 0x37, 0x61],
    ) {
        Some(ImageKind::Gif)
    } else if starts_with(bytes, seq![0x52u8, 0x49, 0x46, 0x46]) && bytes.len() >= 12
        && bytes.subrange(8, 12) == seq![0x57u8, 0x45, 0x42, 0x50] {
        Some(ImageKind::WebP)
    } else if starts_with(bytes, seq![0x4du8, 0x4d, 0x00, 0x2a]) || starts_with(
        bytes,
        seq![0x49u8, 0x49, 0x2a, 0x00],
    ) {
        Some(ImageKind::Tiff)
    } else if starts_with(bytes, seq![0x42u8, 0x4d]) {
        Some(ImageKind::Bmp)
    } else if starts_with(bytes, seq![0x00u8, 0x00, 0x01, 0x00]) {
        Some(ImageKind::Ico)
    } else {
        None
    }
}

/// The supported encoding that the detector's answer stands for, if any.
pub open spec fn kind_of_guess(guess: Option<Seq<char>>) -> Option<ImageKind> {
    match guess {
        Some(label) => kind_of(label),
        None => None,
    }
}

/// What `image::guess_format` makes of a buffer: the name of the format whose
/// signature the leading bytes carry, or nothing where they carry none.
pub uninterp spec fn guessed_format(bytes: Seq<u8>) -> Option<Seq<char>>;

/// Calls `image::guess_format`, which compares the start of the buffer with a
/// fixed table of signatures and answers with the first entry that matches.
///
/// The contract claims that the outcome is a function of the bytes: the name
/// of the format found (the name of its variant in `image::ImageFormat`), or
/// nothing. It also claims that the answer is one of the seven supported
/// formats exactly when the bytes carry one of the signatures listed at
/// `signature_kind`, and is then the format of that signature: these are the
/// table's entries for the seven, and no entry before them matches the same
/// bytes.
#[verifier::external_body]
fn guess_label(bytes: &[u8]) -> (label: Option<String>)
    ensures
        text_of(label) == guessed_format(bytes@),
        kind_of_guess(text_of(label)) == signature_kind(bytes@),
{
    match image::guess_format(bytes) {
        Ok(format) => Some(format!("{:?}", format)),
        Err(_) => None,
    }
}

/// Identifies the encoding of a file from its leading bytes and rejects
/// whatever is outside the supported set.
///
/// A file that opens with the signature of a supported encoding is accepted
/// as that encoding. Any other file is rejected: under the name of its
/// format where the detector knows the signature, as `unknown` otherwise.
pub fn detect_format(bytes: &[u8]) -> (verdict: Result<ImageKind, ThumbnailError>)
    ensures
        match signature_kind(bytes@) {
            Some(kind) => verdict == Ok::<ImageKind, ThumbnailError>(kind),
            None => verdict is Err && verdict->Err_0@ is UnsupportedFormat,
        },
        match format_verdict(guessed_format(bytes@)) {
            Ok(kind) => verdict == Ok::<ImageKind, ThumbnailError>(kind),
            Err(failure) => verdict is Err && verdict->Err_0@ == failure,
        },
{
    classify_format(guess_label(bytes))
}

/// Spells out the seven detector names.
pub proof fn reveal_labels()
    ensures
        "Jpeg"@ == seq!['J', 'p', 'e', 'g'],
        "Png"@ == seq!['P', 'n', 'g'],
        "Gif"@ == seq!['G', 'i', 'f'],
        "WebP"@ == seq!['W', 'e', 'b', 'P'],
        "Bmp"@ == seq!['B', 'm', 'p'],
        "Ico"@ == seq!['I', 'c', 'o'],
        "Tiff"@ == seq!['T', 'i', 'f', 'f'],
{
    reveal_strlit("Jpeg");
    reveal_strlit("Png");
    reveal_strlit("Gif");
    reveal_strlit("WebP");
    reveal_strlit("Bmp");
    reveal_strlit("Ico");
    reveal_strlit("Tiff");
    assert("Jpeg"@ =~= seq!['J', 'p', 'e', 'g']);
    assert("Png"@ =~= seq!['P', 'n', 'g']);
    assert("Gif"@ =~= seq!['G', 'i', 'f']);
    assert("WebP"@ =~= seq!['W', 'e', 'b', 'P']);
    assert("Bmp"@ =~= seq!['B', 'm', 'p']);
    assert("Ico"@ =~= seq!['I', 'c', 'o']);
    assert("Tiff"@ =~= seq!['T', 'i', 'f', 'f']);
}

/// Every supported encoding is found again under its own name, so that the
/// seven names are pairwise different.
pub proof fn label_names_kind(kind: ImageKind)
    ensures
        kind_of(kind.label_spec()) == Some(kind),
{
    reveal_labels();
    assert(seq!['J', 'p', 'e', 'g'][0] == 'J');
    assert(seq!['P', 'n', 'g'][0] == 'P');
    assert(seq!['G', 'i', 'f'][0] == 'G');
    assert(seq!['W', 'e', 'b', 'P'][0] == 'W');
    assert(seq!['B', 'm', 'p'][0] == 'B');
    assert(seq!['I', 'c', 'o'][0] == 'I');
    assert(seq!['T', 'i', 'f', 'f'][0] == 'T');
}

/// A header that the detector places outside the supported set, or cannot
/// place at all, is rejected as an unsupported format.
pub proof fn outside_set_is_rejected(guess: Option<Seq<char>>)
    requires
        guess is Some ==> kind_of(guess->Some_0) is None,
    ensures
        format_verdict(guess) is Err,
        format_verdict(guess)->Err_0 is UnsupportedFormat,
{
}

} // verus!
