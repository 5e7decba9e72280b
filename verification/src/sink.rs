//! Routing an encoded payload to its destination. Nothing is written here:
//! the outcome says what is to be written where, and what the caller gets.

use vstd::prelude::*;
use vstd::string::StringExecFns;
use crate::encode::{target_of, EncodedPayload, Encoding, Payload};
use crate::error::Failure;
use crate::format::{signature_kind, ImageKind};
use crate::mode::Mode;
use crate::text::{base64_payload, base64_payload_of_text, base64_text, is_base64, to_base64};

verus! {

/// A file to be written, replacing whatever the path holds.
#[derive(Debug, PartialEq, Eq)]
pub struct FileWrite {
    pub path: String,
    pub bytes: Vec<u8>,
}

/// What a request ends in: the value for the caller, and the one write that
/// goes with it, if any.
#[derive(Debug, PartialEq, Eq)]
pub struct Emission {
    pub value: String,
    pub write: Option<FileWrite>,
}

/// Mathematical value of an [`Emission`]; a write is a path with bytes.
pub struct Delivery {
    pub value: Seq<char>,
    pub write: Option<(Seq<char>, Seq<u8>)>,
}

impl View for Emission {
    type V = Delivery;

    open spec fn view(&self) -> Delivery {
        Delivery {
            value: self.value@,
            write: match self.write {
                Some(w) => Some((w.path@, w.bytes@)),
                None => None,
            },
        }
    }
}

/// The path of the new file that goes beside `path`.
pub open spec fn sibling_path(path: Seq<char>) -> Seq<char> {
    path + ".webp"@
}

/// What each mode makes of a payload.
pub open spec fn emission_of(payload: Payload, mode: Mode, path: Seq<char>) -> Delivery {
    match mode {
        Mode::InMemory => Delivery { value: base64_text(payload.bytes), write: None },
        Mode::NewFile => Delivery {
            value: sibling_path(path),
            write: Some((sibling_path(path), payload.bytes)),
        },
        Mode::OverwriteOriginal => Delivery { value: path, write: Some((path, payload.bytes)) },
    }
}

/// Routes a payload.
///
/// - In memory: nothing is written, and the value is the base64 text of the
///   payload; the path is ignored.
/// - New file: the payload goes to the path with `.webp` appended, and that
///   path is the value.
/// - Overwrite: the payload goes to the path itself, which is the value.
///
/// The payload must carry the encoding that the mode asks for, given the
/// format `original` that was detected in the source: tuned WebP, or for an
/// overwrite the source's own format.
pub fn emit(payload: EncodedPayload, mode: Mode, original_path: &str, original: ImageKind) -> (out:
    Emission)
    requires
        target_of(mode, Some(original)) == Ok::<Encoding, Failure>(payload@.encoding),
    ensures
        out@ == emission_of(payload@, mode, original_path@),
{
    match mode {
        Mode::InMemory => Emission { value: to_base64(payload.bytes()), write: None },
        Mode::NewFile => {
            let path = String::from_str(original_path).concat(".webp");
            let same = path.clone();
            Emission { value: path, write: Some(FileWrite { path: same, bytes: payload.into_bytes() }) }
        },
        Mode::OverwriteOriginal => Emission {
            value: String::from_str(original_path),
            write: Some(
                FileWrite { path: String::from_str(original_path), bytes: payload.into_bytes() },
            ),
        },
    }
}

/// Whether `out` is what `mode` owes for a source of format `original` at
/// `path`: the value and the write are those of the mode, and the bytes that
/// leave open with a signature of the format of the mode.
pub open spec fn delivers(out: Delivery, mode: Mode, path: Seq<char>, original: ImageKind) -> bool {
    match mode {
        Mode::InMemory => {
            &&& out.write is None
            &&& is_base64(out.value)
            &&& signature_kind(base64_payload(out.value)) == Some(ImageKind::WebP)
        },
        Mode::NewFile => {
            &&& out.value == sibling_path(path)
            &&& out.write is Some
            &&& out.write->Some_0.0 == sibling_path(path)
            &&& signature_kind(out.write->Some_0.1) == Some(ImageKind::WebP)
        },
        Mode::OverwriteOriginal => {
            &&& out.value == path
            &&& out.write is Some
            &&& out.write->Some_0.0 == path
            &&& signature_kind(out.write->Some_0.1) == Some(original)
        },
    }
}

/// Routing a sealed payload of the encoding that the mode asks for delivers
/// what the mode owes. In particular the text of the in-memory mode decodes
/// into bytes that open with the signature of WebP, and what an overwrite
/// writes opens with a signature of the format of the source.
pub proof fn emission_delivers(payload: Payload, mode: Mode, path: Seq<char>, original: ImageKind)
    requires
        payload.sealed(),
        target_of(mode, Some(original)) == Ok::<Encoding, Failure>(payload.encoding),
    ensures
        delivers(emission_of(payload, mode, path), mode, path, original),
{
    base64_payload_of_text(payload.bytes);
}

/// The new file never takes the place of the source: its path is longer by
/// five characters.
pub proof fn sibling_is_another_path(path: Seq<char>)
    ensures
        sibling_path(path) != path,
        sibling_path(path).len() == path.len() + 5,
        sibling_path(path).take(path.len() as int) == path,
{
    reveal_strlit(".webp");
    assert(".webp"@.len() == 5);
    assert(sibling_path(path).take(path.len() as int) =~= path);
}

} // verus!
