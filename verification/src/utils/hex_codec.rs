//! Hexadecimal text: what it means, and the calls that produce and read it.

use vstd::prelude::*;

verus! {

/// The lower-case hexadecimal digit for a value below sixteen.
pub open spec fn hex_digit(v: int) -> char {
    if v < 10 {
        (('0' as u8) + v) as u8 as char
    } else {
        (('a' as u8) + v - 10) as u8 as char
    }
}

/// The character at position `i` of the hexadecimal text of `bytes`: the high
/// half of a byte comes first.
pub open spec fn hex_char_at(bytes: Seq<u8>, i: int) -> char {
    if i % 2 == 0 {
        hex_digit(bytes[i / 2] as int / 16)
    } else {
        hex_digit(bytes[i / 2] as int % 16)
    }
}

/// The lower-case hexadecimal text of `bytes`, two characters for each byte.
pub open spec fn hex_text(bytes: Seq<u8>) -> Seq<char> {
    Seq::new(2 * bytes.len(), |i: int| hex_char_at(bytes, i))
}

/// Encodes `bytes` as lower-case hexadecimal text, by `hex::encode`. The
/// contract claims that the result is `hex_text` of the input: each byte
/// gives its high half and then its low half as a digit of `0-9a-f`.
#[verifier::external_body]
pub(crate) fn hex_encode(bytes: &[u8]) -> (text: String)
    ensures
        text@ == hex_text(bytes@),
{
    hex::encode(bytes)
}

/// The value of a hexadecimal digit, of either case, given as a byte of
/// text; none for any other byte.
pub open spec fn hex_value(c: u8) -> Option<u8> {
    if 0x30 <= c <= 0x39 {
        Some((c - 0x30) as u8)
    } else if 0x61 <= c <= 0x66 {
        Some((c - 0x61 + 10) as u8)
    } else if 0x41 <= c <= 0x46 {
        Some((c - 0x41 + 10) as u8)
    } else {
        None
    }
}

/// Whether `text` is hexadecimal text: an even number of hexadecimal digits.
pub open spec fn is_hex_text(text: Seq<u8>) -> bool {
    text.len() % 2 == 0 && forall|i: int| 0 <= i < text.len() ==> hex_value(#[trigger] text[i]) is Some
}

/// The bytes that the hexadecimal text `text` stands for: each pair of digits
/// gives one byte, the high half first.
pub open spec fn hex_bytes(text: Seq<u8>) -> Seq<u8> {
    Seq::new(
        text.len() / 2,
        |i: int| (16 * hex_value(text[2 * i])->0 + hex_value(text[2 * i + 1])->0) as u8,
    )
}

/// Why `hex::decode` refused a text.
#[verifier::external_type_specification]
#[verifier::external_body]
pub struct ExFromHexError(hex::FromHexError);

/// Decodes hexadecimal text, by `hex::decode`. The contract claims that the
/// call succeeds on an even number of digits of `0-9a-fA-F` and on nothing
/// else, and that each pair of digits then gives the byte
/// `16 * high + low`.
#[verifier::external_body]
pub(crate) fn hex_decode(text: &[u8]) -> (bytes: Result<Vec<u8>, hex::FromHexError>)
    ensures
        bytes is Ok <==> is_hex_text(text@),
        bytes is Ok ==> bytes->Ok_0@ == hex_bytes(text@),
{
    hex::decode(text)
}

/// The bytes of a text of ASCII characters.
pub open spec fn ascii_bytes(text: Seq<char>) -> Seq<u8> {
    Seq::new(text.len(), |i: int| text[i] as u8)
}

/// Every digit that `hex_digit` gives is a hexadecimal digit, with the value
/// that it was made from.
pub proof fn lemma_hex_digit_value(v: int)
    requires
        0 <= v < 16,
    ensures
        hex_value(hex_digit(v) as u8) == Some(v as u8),
        hex_digit(v) as u8 <= 0x7f,
{
}

/// Hexadecimal text is ASCII text.
pub proof fn lemma_hex_text_is_ascii(bytes: Seq<u8>)
    ensures
        vstd::utf8::is_ascii_chars(hex_text(bytes)),
        vstd::utf8::encode_utf8(hex_text(bytes)) == ascii_bytes(hex_text(bytes)),
{
    let text = hex_text(bytes);
    assert forall|i: int| 0 <= i < text.len() implies '\0' <= #[trigger] text[i] <= '\u{7f}' by {
        let b = bytes[i / 2] as int;
        lemma_hex_digit_value(b / 16);
        lemma_hex_digit_value(b % 16);
    }
    vstd::utf8::is_ascii_chars_encode_utf8(text);
    assert(vstd::utf8::encode_utf8(text) =~= ascii_bytes(text));
}

/// Decoding the hexadecimal text of some bytes gives the bytes back.
pub proof fn lemma_hex_round_trip(bytes: Seq<u8>)
    ensures
        is_hex_text(ascii_bytes(hex_text(bytes))),
        hex_bytes(ascii_bytes(hex_text(bytes))) == bytes,
{
    let text = ascii_bytes(hex_text(bytes));
    assert forall|i: int| 0 <= i < text.len() implies hex_value(#[trigger] text[i]) is Some by {
        let b = bytes[i / 2] as int;
        lemma_hex_digit_value(b / 16);
        lemma_hex_digit_value(b % 16);
    }
    assert forall|i: int| 0 <= i < bytes.len() implies hex_bytes(text)[i] == bytes[i] by {
        let b = bytes[i] as int;
        lemma_hex_digit_value(b / 16);
        lemma_hex_digit_value(b % 16);
        assert(text[2 * i] == hex_digit(b / 16) as u8);
        assert(text[2 * i + 1] == hex_digit(b % 16) as u8);
    }
    assert(hex_bytes(text) =~= bytes);
}

/// The text of the first `n` bytes is the first `2 * n` characters of the text
/// of all of them.
pub proof fn lemma_hex_text_prefix(bytes: Seq<u8>, n: int)
    requires
        0 <= n <= bytes.len(),
    ensures
        hex_text(bytes.subrange(0, n)) == hex_text(bytes).subrange(0, 2 * n),
{
    assert(hex_text(bytes.subrange(0, n)) =~= hex_text(bytes).subrange(0, 2 * n));
}

} // verus!
