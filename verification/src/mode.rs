//! The three output modes and the literals that select them.

use vstd::prelude::*;
use vstd::string::StringExecFns;
use crate::error::{Failure, ThumbnailError};
use crate::text::same_text;

verus! {

/// Where the encoded thumbnail goes.
#[derive(Clone, Copy, Debug, PartialEq, Eq, Structural)]
pub enum Mode {
    /// Returned as text; nothing is written.
    InMemory,
    /// Written to a new file beside the source.
    NewFile,
    /// Written over the source, in the source's own format.
    OverwriteOriginal,
}

impl Mode {
    /// The literal that selects this mode.
    pub open spec fn literal_spec(self) -> Seq<char> {
        match self {
            Mode::InMemory => "base64"@,
            Mode::NewFile => "webp"@,
            Mode::OverwriteOriginal => "overwrite"@,
        }
    }

    /// The literal that selects this mode.
    pub fn literal(&self) -> (text: &'static str)
        ensures
            text@ == self.literal_spec(),
    {
        match self {
            Mode::InMemory => "base64",
            Mode::NewFile => "webp",
            Mode::OverwriteOriginal => "overwrite",
        }
    }
}

/// The mode that a literal selects, if it selects one.
pub open spec fn mode_of(literal: Seq<char>) -> Option<Mode> {
    if literal == "base64"@ {
        Some(Mode::InMemory)
    } else if literal == "webp"@ {
        Some(Mode::NewFile)
    } else if literal == "overwrite"@ {
        Some(Mode::OverwriteOriginal)
    } else {
        None
    }
}

/// What [`parse_mode`] returns on a literal.
pub open spec fn mode_verdict(literal: Seq<char>) -> Result<Mode, Failure> {
    match mode_of(literal) {
        Some(mode) => Ok(mode),
        None => Err(Failure::UnknownMode(literal)),
    }
}

/// Reads a mode literal. Exactly `base64`, `webp` and `overwrite` are
/// accepted; any other text is rejected with the text itself.
pub fn parse_mode(literal: &str) -> (parsed: Result<Mode, ThumbnailError>)
    ensures
        match mode_verdict(literal@) {
            Ok(mode) => parsed == Ok::<Mode, ThumbnailError>(mode),
            Err(failure) => parsed is Err && parsed->Err_0@ == failure,
        },
{
    if same_text(literal, "base64") {
        Ok(Mode::InMemory)
    } else if same_text(literal, "webp") {
        Ok(Mode::NewFile)
    } else if same_text(literal, "overwrite") {
        Ok(Mode::OverwriteOriginal)
    } else {
        Err(ThumbnailError::UnknownMode(String::from_str(literal)))
    }
}

/// Every mode is selected by its own literal, and by no other mode's.
pub proof fn literal_selects_mode(mode: Mode)
    ensures
        mode_of(mode.literal_spec()) == Some(mode),
{
    reveal_strlit("base64");
    reveal_strlit("webp");
    reveal_strlit("overwrite");
    assert("base64"@.len() == 6);
    assert("webp"@.len() == 4);
    assert("overwrite"@.len() == 9);
}

} // verus!
