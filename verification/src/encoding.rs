//! Text encodings: UTF-8, hexadecimal, base64.

use hex::FromHex;
use vstd::prelude::*;
use vstd::utf8::{encode_utf8, valid_utf8};

verus! {

/// What an optional byte vector holds.
pub open spec fn view_of(bytes: Option<Vec<u8>>) -> Option<Seq<u8>> {
    match bytes {
        Some(b) => Some(b@),
        None => None,
    }
}

/// `std::str::from_utf8`: the text that `bytes` encode; `None` where they are no UTF-8.
#[verifier::external_body]
pub(crate) fn text_of_utf8(bytes: &[u8]) -> (text: Option<&str>)
    ensures
        match text {
            Some(t) => valid_utf8(bytes@) && encode_utf8(t@) == bytes@,
            None => !valid_utf8(bytes@),
        },
{
    std::str::from_utf8(bytes).ok()
}

/// The value of a hexadecimal digit, in either case.
pub open spec fn hex_value(c: char) -> Option<int> {
    if '0' <= c <= '9' {
        Some(c as int - '0' as int)
    } else if 'a' <= c <= 'f' {
        Some(c as int - 'a' as int + 10)
    } else if 'A' <= c <= 'F' {
        Some(c as int - 'A' as int + 10)
    } else {
        None
    }
}

/// The bytes that `text` writes with two hexadecimal digits each.
pub open spec fn hex_decoded(text: Seq<char>) -> Option<Seq<u8>> {
    if text.len() % 2 == 0 && forall|i: int| 0 <= i < text.len() ==> hex_value(#[trigger] text[i]) is Some {
        Some(
            Seq::new(
                text.len() / 2,
                |i: int| (16 * hex_value(text[2 * i])->0 + hex_value(text[2 * i + 1])->0) as u8,
            ),
        )
    } else {
        None
    }
}

/// `Vec::from_hex` of the crate `hex`: the bytes that `text` writes in hexadecimal; `None` where
/// it has an odd length or a character that is no hexadecimal digit.
#[verifier::external_body]
pub(crate) fn decode_hex(text: &str) -> (bytes: Option<Vec<u8>>)
    ensures
        view_of(bytes) == hex_decoded(text@),
{
    Vec::from_hex(text).ok()
}

/// What `base64::decode` makes of `text`: the bytes, or nothing where it reports an error.
pub uninterp spec fn base64_decoded(text: Seq<char>) -> Option<Seq<u8>>;

/// `base64::decode`, with the standard alphabet: the bytes that `text` encodes; `None` where it
/// reports an error. Which texts those are is left to the name `base64_decoded`.
#[verifier::external_body]
pub(crate) fn decode_base64(text: &str) -> (bytes: Option<Vec<u8>>)
    ensures
        view_of(bytes) == base64_decoded(text@),
{
    base64::decode(text).ok()
}

/// The lower-case digit of a value below 16.
pub open spec fn hex_digit(value: int) -> char {
    if value < 10 {
        ('0' as int + value) as char
    } else {
        ('a' as int + value - 10) as char
    }
}

/// `bytes` in hexadecimal: two lower-case digits for each, the upper half first.
pub open spec fn hex_text(bytes: Seq<u8>) -> Seq<char> {
    Seq::new(
        2 * bytes.len(),
        |i: int|
            if i % 2 == 0 {
                hex_digit(bytes[i / 2] as int / 16)
            } else {
                hex_digit(bytes[i / 2] as int % 16)
            },
    )
}

/// The text that encodes to `bytes` is `chars`, where `bytes` are the ASCII codes of `chars`.
pub(crate) proof fn lemma_ascii_text(text: Seq<char>, bytes: Seq<u8>, chars: Seq<char>)
    requires
        encode_utf8(text) == bytes,
        vstd::utf8::is_ascii_chars(chars),
        bytes == chars.map_values(|c: char| c as u8),
    ensures
        text == chars,
{
    vstd::utf8::is_ascii_chars_encode_utf8(chars);
    assert(encode_utf8(chars) =~= bytes);
    vstd::utf8::encode_utf8_decode_utf8(text);
    vstd::utf8::encode_utf8_decode_utf8(chars);
}

} // verus!
