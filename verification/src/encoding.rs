//! Text forms of bytes: lower-case hex for keys and queue ids, padded base64
//! for envelopes on their way through the relay.

use vstd::prelude::*;
use base64::Engine;

verus! {

/// The lower-case hex digit of a value below 16.
pub open spec fn hex_digit(nibble: int) -> char {
    if nibble < 10 {
        (0x30 + nibble) as u8 as char
    } else {
        (0x61 + nibble - 10) as u8 as char
    }
}

/// Two lower-case hex digits for each byte, the high half first.
pub open spec fn hex_string(bytes: Seq<u8>) -> Seq<char> {
    Seq::new(
        2 * bytes.len(),
        |i: int|
            if i % 2 == 0 {
                hex_digit(bytes[i / 2] as int / 16)
            } else {
                hex_digit(bytes[i / 2] as int % 16)
            },
    )
}

/// The value of a hex digit of either case.
pub open spec fn hex_value(c: char) -> Option<int> {
    let code = c as u32 as int;
    if 0x30 <= code <= 0x39 {
        Some(code - 0x30)
    } else if 0x61 <= code <= 0x66 {
        Some(code - 0x61 + 10)
    } else if 0x41 <= code <= 0x46 {
        Some(code - 0x41 + 10)
    } else {
        None
    }
}

/// Well-formed hex: an even number of hex digits.
pub open spec fn is_hex_text(text: Seq<char>) -> bool {
    &&& text.len() % 2 == 0
    &&& forall|i: int| 0 <= i < text.len() ==> (#[trigger] hex_value(text[i])) is Some
}

/// The bytes that well-formed hex stands for.
pub open spec fn hex_bytes(text: Seq<char>) -> Seq<u8> {
    Seq::new(
        text.len() / 2,
        |i: int| (hex_value(text[2 * i])->0 * 16 + hex_value(text[2 * i + 1])->0) as u8,
    )
}

/// The padded base64 text of bytes, in the standard alphabet.
pub uninterp spec fn base64_text(bytes: Seq<u8>) -> Seq<char>;

/// The bytes that a text decodes to as canonical padded base64, if it is such.
pub uninterp spec fn base64_bytes(text: Seq<char>) -> Option<Seq<u8>>;

/// The lengths whose base64 text still has a length that fits in `usize`.
pub open spec fn base64_fits(len: nat) -> bool {
    (len / 3 + 1) * 4 <= usize::MAX
}

/// Calls `hex::encode`, which writes each byte as two digits out of
/// `0123456789abcdef`.
#[verifier::external_body]
pub(crate) fn hex_encode(bytes: &[u8]) -> (r: String)
    ensures
        r@ == hex_string(bytes@),
{
    hex::encode(bytes)
}

/// Calls `hex::decode`, which accepts exactly the texts of even length made of
/// digits and the letters a to f in either case, and then returns one byte for
/// each pair.
#[verifier::external_body]
pub(crate) fn hex_decode(text: &str) -> (r: Option<Vec<u8>>)
    ensures
        r is Some <==> is_hex_text(text@),
        r matches Some(bytes) ==> bytes@ == hex_bytes(text@),
{
    hex::decode(text).ok()
}

/// Calls `Engine::encode` of `base64::engine::general_purpose::STANDARD`. The
/// text has a name, and decoding it gives the bytes back.
#[verifier::external_body]
pub(crate) fn base64_encode(bytes: &[u8]) -> (r: String)
    requires
        base64_fits(bytes@.len()),
    ensures
        r@ == base64_text(bytes@),
        base64_bytes(r@) == Some(bytes@),
{
    base64::engine::general_purpose::STANDARD.encode(bytes)
}

/// Calls `Engine::decode` of `base64::engine::general_purpose::STANDARD`.
#[verifier::external_body]
pub(crate) fn base64_decode(text: &str) -> (r: Option<Vec<u8>>)
    ensures
        match r {
            Some(bytes) => base64_bytes(text@) == Some(bytes@),
            None => base64_bytes(text@) is None,
        },
{
    base64::engine::general_purpose::STANDARD.decode(text).ok()
}

/// Whether a character is one of `0` to `9` and `a` to `f`.
pub open spec fn is_lower_hex_digit(c: char) -> bool {
    let code = c as u32 as int;
    0x30 <= code <= 0x39 || 0x61 <= code <= 0x66
}

/// A text of lower-case hex digits only.
pub open spec fn is_lower_hex(text: Seq<char>) -> bool {
    forall|i: int| 0 <= i < text.len() ==> is_lower_hex_digit(#[trigger] text[i])
}

/// The hex text of bytes has two characters for each byte, each of them one
/// of `0` to `9` and `a` to `f`.
pub proof fn lemma_hex_string_shape(bytes: Seq<u8>)
    ensures
        hex_string(bytes).len() == 2 * bytes.len(),
        is_lower_hex(hex_string(bytes)),
{
    let text = hex_string(bytes);
    assert forall|i: int| 0 <= i < text.len() implies is_lower_hex_digit(#[trigger] text[i]) by {
        let nibble = if i % 2 == 0 {
            bytes[i / 2] as int / 16
        } else {
            bytes[i / 2] as int % 16
        };
        assert(text[i] == hex_digit(nibble));
        if nibble < 10 {
            let b = (0x30 + nibble) as u8;
            assert(b as char as u32 == b as u32);
        } else {
            let b = (0x61 + nibble - 10) as u8;
            assert(b as char as u32 == b as u32);
        }
    }
}

/// A byte written as hex reads back as the same byte.
pub proof fn lemma_hex_digit_value(nibble: int)
    requires
        0 <= nibble < 16,
    ensures
        hex_value(hex_digit(nibble)) == Some(nibble),
{
    if nibble < 10 {
        let b = (0x30 + nibble) as u8;
        assert(b as char as u32 == b as u32);
    } else {
        let b = (0x61 + nibble - 10) as u8;
        assert(b as char as u32 == b as u32);
    }
}

/// Hex text of any bytes is well formed and stands for those bytes.
pub proof fn lemma_hex_round_trip(bytes: Seq<u8>)
    ensures
        is_hex_text(hex_string(bytes)),
        hex_bytes(hex_string(bytes)) == bytes,
{
    let text = hex_string(bytes);
    assert forall|i: int| 0 <= i < text.len() implies (#[trigger] hex_value(text[i])) is Some by {
        lemma_hex_digit_value(bytes[i / 2] as int / 16);
        lemma_hex_digit_value(bytes[i / 2] as int % 16);
    }
    assert forall|i: int| 0 <= i < bytes.len() implies hex_bytes(text)[i] == bytes[i] by {
        lemma_hex_digit_value(bytes[i] as int / 16);
        lemma_hex_digit_value(bytes[i] as int % 16);
        assert(text[2 * i] == hex_digit(bytes[i] as int / 16));
        assert(text[2 * i + 1] == hex_digit(bytes[i] as int % 16));
    }
    assert(hex_bytes(text) =~= bytes);
}

} // verus!
