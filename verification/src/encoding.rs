//! Text encodings that the envelope is written in: UTF-8, base64 and hex.

use vstd::prelude::*;
use vstd::string::StringSliceAdditionalSpecFns;
use vstd::utf8::{decode_utf8, valid_utf8, encode_utf8_decode_utf8, encode_utf8_valid_utf8};
use base64::Engine;

verus! {

/// What the standard base64 alphabet, with padding, decodes a text to; `None`
/// where the text is no such encoding.
pub uninterp spec fn base64_decoded(text: Seq<char>) -> Option<Seq<u8>>;

/// The text that a buffer holds, where the buffer is UTF-8.
pub open spec fn text_of(bytes: Seq<u8>) -> Option<Seq<char>> {
    if valid_utf8(bytes) {
        Some(decode_utf8(bytes))
    } else {
        None
    }
}

/// The ASCII code of the lowercase hex digit for a value below sixteen.
pub open spec fn hex_digit(nibble: u8) -> u8 {
    if nibble < 10 {
        (48 + nibble) as u8
    } else {
        (87 + nibble) as u8
    }
}

/// The lowercase hex digits of a byte string, two for each byte, high half first.
pub open spec fn hex_digits(data: Seq<u8>) -> Seq<u8> {
    Seq::new(
        2 * data.len(),
        |i: int|
            if i % 2 == 0 {
                hex_digit(data[i / 2] / 16)
            } else {
                hex_digit(data[i / 2] % 16)
            },
    )
}

/// A byte with an ASCII capital letter replaced by its small letter.
pub open spec fn folded(byte: u8) -> u8 {
    if 65 <= byte <= 90 {
        (byte + 32) as u8
    } else {
        byte
    }
}

/// Two byte strings are the same but for the case of ASCII letters.
pub open spec fn same_ignoring_case(a: Seq<u8>, b: Seq<u8>) -> bool {
    &&& a.len() == b.len()
    &&& forall|i: int| 0 <= i < a.len() ==> folded(#[trigger] a[i]) == folded(b[i])
}

/// Calls `core::str::from_utf8`: the buffer as text when it is valid UTF-8, whose
/// bytes are then the buffer's, and `None` when it is not.
#[verifier::external_body]
fn utf8_text(bytes: &[u8]) -> (text: Option<&str>)
    ensures
        match text {
            Some(t) => t.spec_bytes() == bytes@,
            None => !valid_utf8(bytes@),
        },
{
    match core::str::from_utf8(bytes) {
        Ok(t) => Some(t),
        Err(_) => None,
    }
}

/// Calls `decode` of the `base64` crate's `STANDARD` engine: the decoded bytes,
/// or `None` where the engine reports an error. The contract claims that the
/// result depends on the text alone, and calls it `base64_decoded`.
#[verifier::external_body]
pub(crate) fn base64_decode(text: &str) -> (bytes: Option<Vec<u8>>)
    ensures
        match bytes {
            Some(b) => base64_decoded(text@) == Some(b@),
            None => base64_decoded(text@).is_none(),
        },
{
    match base64::engine::general_purpose::STANDARD.decode(text) {
        Ok(b) => Some(b),
        Err(_) => None,
    }
}

/// Calls `hex::encode`: two lowercase hex digits for each byte, in order, handed
/// back as the bytes of the string.
#[verifier::external_body]
fn hex_encode(data: &[u8]) -> (digits: Vec<u8>)
    ensures
        digits@ == hex_digits(data@),
{
    hex::encode(data).into_bytes()
}

/// Reads a buffer as UTF-8 text.
pub fn read_text(bytes: &[u8]) -> (text: Option<&str>)
    ensures
        match text {
            Some(t) => text_of(bytes@) == Some(t@),
            None => text_of(bytes@).is_none(),
        },
{
    let text = utf8_text(bytes);
    proof {
        if let Some(t) = text {
            encode_utf8_valid_utf8(t@);
            encode_utf8_decode_utf8(t@);
        }
    }
    text
}

/// The byte with an ASCII capital letter replaced by its small letter.
pub fn fold_case(byte: u8) -> (r: u8)
    ensures
        r == folded(byte),
{
    if 65 <= byte && byte <= 90 {
        byte + 32
    } else {
        byte
    }
}

/// Whether a recorded hex digest names the given digest, whatever the case of
/// its letters.
pub fn digest_matches(digest: &[u8], recorded: &str) -> (r: bool)
    ensures
        r == same_ignoring_case(recorded.spec_bytes(), hex_digits(digest@)),
{
    let digits = hex_encode(digest);
    let given = recorded.as_bytes();
    if given.len() != digits.len() {
        return false;
    }
    let mut i: usize = 0;
    while i < given.len()
        invariant
            given@ == recorded.spec_bytes(),
            digits@ == hex_digits(digest@),
            given@.len() == digits@.len(),
            i <= given@.len(),
            forall|j: int| 0 <= j < i ==> folded(#[trigger] given@[j]) == folded(digits@[j]),
        decreases given@.len() - i,
    {
        if fold_case(given[i]) != fold_case(digits[i]) {
            return false;
        }
        i += 1;
    }
    true
}

/// A hex rendering is unchanged by folding: its digits are never capital letters.
pub proof fn lemma_hex_digits_are_lowercase(data: Seq<u8>, i: int)
    requires
        0 <= i < 2 * data.len(),
    ensures
        folded(hex_digits(data)[i]) == hex_digits(data)[i],
{
}

/// A digest is named by its own hex rendering.
pub proof fn lemma_digest_matches_own_hex(data: Seq<u8>)
    ensures
        same_ignoring_case(hex_digits(data), hex_digits(data)),
{
}

} // verus!
