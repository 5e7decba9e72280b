//! Text: comparing it, and the text-safe form of a byte sequence.

use vstd::prelude::*;
use vstd::string::StringExecFns;

verus! {

/// Whether two pieces of text hold the same characters.
pub fn same_text(a: &str, b: &str) -> (same: bool)
    ensures
        same == (a@ == b@),
{
    String::from_str(a) == String::from_str(b)
}

/// The character that stands for a group of six bits in the standard
/// alphabet: `A` to `Z`, `a` to `z`, `0` to `9`, `+` and `/`.
pub open spec fn symbol(sextet: int) -> char {
    if sextet < 26 {
        (sextet + 65) as u8 as char
    } else if sextet < 52 {
        (sextet + 71) as u8 as char
    } else if sextet < 62 {
        (sextet - 4) as u8 as char
    } else if sextet == 62 {
        '+'
    } else {
        '/'
    }
}

/// The four symbols that stand for three bytes, six bits each.
pub open spec fn quantum(first: int, second: int, third: int) -> Seq<char> {
    seq![
        symbol(first / 4),
        symbol((first % 4) * 16 + second / 16),
        symbol((second % 16) * 4 + third / 64),
        symbol(third % 64),
    ]
}

/// The standard base64 text of a byte sequence: a quantum for every three
/// bytes, the last one filled up with zero bits and padded with `=` where
/// one or two bytes are left over.
pub open spec fn base64_text(bytes: Seq<u8>) -> Seq<char>
    decreases bytes.len(),
{
    if bytes.len() == 0 {
        Seq::empty()
    } else if bytes.len() == 1 {
        quantum(bytes[0] as int, 0, 0).take(2) + seq!['=', '=']
    } else if bytes.len() == 2 {
        quantum(bytes[0] as int, bytes[1] as int, 0).take(3) + seq!['=']
    } else {
        quantum(bytes[0] as int, bytes[1] as int, bytes[2] as int) + base64_text(bytes.skip(3))
    }
}

/// The longest byte sequence whose base64 text can still be allocated.
pub open spec fn text_safe_limit() -> int {
    (isize::MAX / 4) * 3
}

/// Whether `len` bytes stay within [`text_safe_limit`].
pub fn within_text_limit(len: usize) -> (ok: bool)
    ensures
        ok == (len <= text_safe_limit()),
{
    len <= (isize::MAX as usize) / 4 * 3
}

/// Calls `Engine::encode` of the `base64` crate on its `STANDARD` engine: the
/// alphabet of RFC 4648 with padding. The contract claims that the text is
/// the one that `base64_text` describes.
#[verifier::external_body]
fn standard_base64(bytes: &[u8]) -> (text: String)
    requires
        bytes@.len() <= text_safe_limit(),
    ensures
        text@ == base64_text(bytes@),
{
    base64::Engine::encode(&base64::engine::general_purpose::STANDARD, bytes)
}

/// Renders bytes as standard base64 text.
pub fn to_base64(bytes: &[u8]) -> (text: String)
    requires
        bytes@.len() <= text_safe_limit(),
    ensures
        text@ == base64_text(bytes@),
        text@.len() == 4 * ((bytes@.len() + 2) / 3),
{
    proof {
        base64_text_len(bytes@);
    }
    standard_base64(bytes)
}

/// The symbols are sixty-four different characters.
pub proof fn symbol_is_injective(a: int, b: int)
    requires
        0 <= a < 64,
        0 <= b < 64,
        symbol(a) == symbol(b),
    ensures
        a == b,
{
}

/// No symbol is the padding character.
pub proof fn symbol_is_no_padding(sextet: int)
    requires
        0 <= sextet < 64,
    ensures
        symbol(sextet) != '=',
{
}

/// Base64 text has four characters for every three bytes begun.
pub proof fn base64_text_len(bytes: Seq<u8>)
    ensures
        base64_text(bytes).len() == 4 * ((bytes.len() + 2) / 3),
    decreases bytes.len(),
{
    if bytes.len() >= 3 {
        base64_text_len(bytes.skip(3));
    }
}

/// Two quanta that agree on their first `shared` symbols come from bytes that
/// agree as far as those symbols reach.
pub proof fn quantum_decides_bytes(a: (int, int, int), b: (int, int, int), shared: int)
    requires
        0 <= a.0 < 256 && 0 <= a.1 < 256 && 0 <= a.2 < 256,
        0 <= b.0 < 256 && 0 <= b.1 < 256 && 0 <= b.2 < 256,
        2 <= shared <= 4,
        forall|i: int| 0 <= i < shared ==> quantum(a.0, a.1, a.2)[i] == quantum(b.0, b.1, b.2)[i],
    ensures
        a.0 == b.0,
        shared >= 3 ==> a.1 / 4 == b.1 / 4,
        shared >= 3 && a.1 % 4 == b.1 % 4 ==> a.1 == b.1,
        shared == 4 ==> a.1 == b.1 && a.2 == b.2,
{
    let qa = quantum(a.0, a.1, a.2);
    let qb = quantum(b.0, b.1, b.2);
    assert(qa[0] == qb[0]);
    assert(qa[1] == qb[1]);
    symbol_is_injective(a.0 / 4, b.0 / 4);
    symbol_is_injective((a.0 % 4) * 16 + a.1 / 16, (b.0 % 4) * 16 + b.1 / 16);
    if shared >= 3 {
        assert(qa[2] == qb[2]);
        symbol_is_injective((a.1 % 16) * 4 + a.2 / 64, (b.1 % 16) * 4 + b.2 / 64);
    }
    if shared == 4 {
        assert(qa[3] == qb[3]);
        symbol_is_injective(a.2 % 64, b.2 % 64);
    }
}

/// Different byte sequences have different base64 texts.
pub proof fn base64_text_is_injective(a: Seq<u8>, b: Seq<u8>)
    requires
        base64_text(a) == base64_text(b),
    ensures
        a == b,
    decreases a.len(),
{
    let ta = base64_text(a);
    let tb = base64_text(b);
    base64_text_len(a);
    base64_text_len(b);
    if a.len() == 0 {
        assert(a =~= b);
    } else {
        let a1 = if a.len() >= 2 { a[1] as int } else { 0 };
        let a2 = if a.len() >= 3 { a[2] as int } else { 0 };
        let b1 = if b.len() >= 2 { b[1] as int } else { 0 };
        let b2 = if b.len() >= 3 { b[2] as int } else { 0 };
        let qa = quantum(a[0] as int, a1, a2);
        let qb = quantum(b[0] as int, b1, b2);
        let shared: int = if a.len() >= 3 { 4 } else { a.len() as int + 1 };
        assert forall|i: int| 0 <= i < 4 implies ta[i] == (if i < shared { qa[i] } else { '=' }) by {}
        let shared_b: int = if b.len() >= 3 { 4 } else { b.len() as int + 1 };
        assert forall|i: int| 0 <= i < 4 implies tb[i] == (if i < shared_b { qb[i] } else { '=' }) by {}
        symbol_is_no_padding((a1 % 16) * 4 + a2 / 64);
        symbol_is_no_padding(a2 % 64);
        symbol_is_no_padding((b1 % 16) * 4 + b2 / 64);
        symbol_is_no_padding(b2 % 64);
        assert(ta[2] == tb[2]);
        assert(ta[3] == tb[3]);
        assert(shared == shared_b);
        assert forall|i: int| 0 <= i < shared implies qa[i] == qb[i] by {
            assert(ta[i] == tb[i]);
        }
        quantum_decides_bytes((a[0] as int, a1, a2), (b[0] as int, b1, b2), shared);
        if a.len() >= 3 {
            assert(ta.skip(4) =~= base64_text(a.skip(3)));
            assert(tb.skip(4) =~= base64_text(b.skip(3)));
            base64_text_is_injective(a.skip(3), b.skip(3));
            assert(a =~= a.take(3) + a.skip(3));
            assert(b =~= b.take(3) + b.skip(3));
            assert(a.take(3) =~= b.take(3));
        } else {
            assert(a =~= b);
        }
    }
}

/// Whether a text is the base64 text of some byte sequence.
pub open spec fn is_base64(text: Seq<char>) -> bool {
    exists|bytes: Seq<u8>| base64_text(bytes) == text
}

/// The bytes that a base64 text decodes into.
pub open spec fn base64_payload(text: Seq<char>) -> Seq<u8> {
    choose|bytes: Seq<u8>| base64_text(bytes) == text
}

/// Decoding the base64 text of a byte sequence gives the sequence back.
pub proof fn base64_payload_of_text(bytes: Seq<u8>)
    ensures
        is_base64(base64_text(bytes)),
        base64_payload(base64_text(bytes)) == bytes,
{
    base64_text_is_injective(base64_payload(base64_text(bytes)), bytes);
}

} // verus!
