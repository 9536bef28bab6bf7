//! Keys in text form.

use vstd::prelude::*;
use vstd::utf8::{encode_utf8, is_char_boundary};

use crate::encoding::{
    base64_decoded, decode_base64, hex_digit, hex_text, hex_value, lemma_ascii_text, text_of_utf8, view_of,
};

verus! {

broadcast use vstd::slice::axiom_spec_len;

/// A key of 32 bytes.
#[derive(Debug, Copy, Clone)]
pub struct KeyBytes(pub [u8; 32]);

/// The value of the digits `b[2 * i]` and `b[2 * i + 1]` of a hexadecimal key. A plus sign may
/// stand for the first digit, where it counts as nothing.
pub open spec fn key_pair(b: Seq<u8>, i: int) -> Option<int> {
    match (hex_value(b[2 * i] as char), hex_value(b[2 * i + 1] as char)) {
        (Some(high), Some(low)) => Some(16 * high + low),
        (None, Some(low)) if b[2 * i] as char == '+' => Some(low),
        _ => None,
    }
}

/// Whether the first `n` pairs of digits of a hexadecimal key are legal.
pub open spec fn legal_pairs(b: Seq<u8>, n: int) -> bool {
    forall|i: int| 0 <= i < n ==> #[trigger] key_pair(b, i) is Some
}

/// Whether no pair of digits of a hexadecimal key takes a character apart, as far as the pairs are
/// looked at: they are, up to the first that is illegal.
pub open spec fn pairs_keep_characters_whole(b: Seq<u8>) -> bool {
    forall|i: int|
        0 <= i < 32 && legal_pairs(b, i) ==> {
            &&& #[trigger] is_char_boundary(b, 2 * i)
            &&& is_char_boundary(b, 2 * i + 2)
        }
}

/// The key that a base64 text gives once it is decoded: text that does not decode gives the
/// all-zero key.
pub open spec fn base64_key(decoded: Option<Seq<u8>>) -> Result<Seq<u8>, Seq<char>> {
    match decoded {
        None => Ok(Seq::new(32, |i: int| 0u8)),
        Some(bytes) if bytes.len() == 32 => Ok(bytes),
        Some(_) => Err("Illegal character in key"@),
    }
}

/// The key that the text with the UTF-8 bytes `b` writes, where base64 makes `decoded` of the text:
/// 64 bytes are hexadecimal, 43 or 44 are base64.
pub open spec fn key_of(b: Seq<u8>, decoded: Option<Seq<u8>>) -> Result<Seq<u8>, Seq<char>> {
    if b.len() == 64 {
        if legal_pairs(b, 32) {
            Ok(Seq::new(32, |i: int| key_pair(b, i)->0 as u8))
        } else {
            Err("Illegal character in key"@)
        }
    } else if b.len() == 43 || b.len() == 44 {
        base64_key(decoded)
    } else {
        Err("Illegal key size"@)
    }
}

/// The digit of a value below 16.
fn digit(value: u8) -> (d: u8)
    requires
        value < 16,
    ensures
        d as char == hex_digit(value as int),
        d < 128,
{
    if value < 10 {
        '0' as u8 + value
    } else {
        'a' as u8 + (value - 10)
    }
}

/// The value of a hexadecimal digit.
fn digit_value(d: u8) -> (value: Option<u8>)
    ensures
        match value {
            Some(v) => v < 16 && hex_value(d as char) == Some(v as int),
            None => hex_value(d as char) is None,
        },
{
    if ('0' as u8) <= d && d <= '9' as u8 {
        Some(d - ('0' as u8))
    } else if ('a' as u8) <= d && d <= 'f' as u8 {
        Some(d - ('a' as u8) + 10)
    } else if ('A' as u8) <= d && d <= 'F' as u8 {
        Some(d - ('A' as u8) + 10)
    } else {
        None
    }
}

/// The key in lower-case hexadecimal.
pub fn keybytes_to_hex_string(key_bytes: &KeyBytes) -> (text: String)
    ensures
        text@ == hex_text(key_bytes.0@),
{
    let mut digits: Vec<u8> = Vec::new();
    let ghost expected = hex_text(key_bytes.0@);
    for i in 0..32
        invariant
            expected == hex_text(key_bytes.0@),
            digits@.len() == 2 * i,
            forall|j: int| 0 <= j < 2 * i ==> #[trigger] digits@[j] as char == expected[j] && digits@[j] < 128,
    {
        let byte: u8 = key_bytes.0[i];
        digits.push(digit(byte / 16));
        digits.push(digit(byte % 16));
    }
    proof {
        assert forall|j: int| 0 <= j < 64 implies '\0' <= #[trigger] expected[j] <= '\u{7f}' by {
            assert(digits@[j] as char == expected[j]);
        }
        assert(digits@ =~= expected.map_values(|c: char| c as u8));
        vstd::utf8::is_ascii_chars_encode_utf8(expected);
        assert(encode_utf8(expected) =~= digits@);
        vstd::utf8::encode_utf8_valid_utf8(expected);
    }
    match text_of_utf8(digits.as_slice()) {
        Some(text) => {
            proof {
                lemma_ascii_text(text@, digits@, expected);
            }
            text.to_owned()
        },
        None => String::new(),
    }
}

impl KeyBytes {
    /// The key that decoding a base64 text led to.
    pub fn from_base64_outcome(decoded: Option<Vec<u8>>) -> (key: Result<KeyBytes, &'static str>)
        ensures
            match key {
                Ok(k) => base64_key(view_of(decoded)) == Ok::<Seq<u8>, Seq<char>>(k.0@),
                Err(e) => base64_key(view_of(decoded)) == Err::<Seq<u8>, Seq<char>>(e@),
            },
    {
        let mut internal: [u8; 32] = [0u8; 32];
        assert(internal@ =~= Seq::new(32, |i: int| 0u8));
        if let Some(bytes) = decoded {
            if bytes.len() != 32 {
                return Err("Illegal character in key");
            }
            for i in 0..32
                invariant
                    bytes@.len() == 32,
                    forall|j: int| 0 <= j < i ==> internal@[j] == bytes@[j],
            {
                internal[i] = bytes[i];
            }
            assert(internal@ =~= bytes@);
        }
        Ok(KeyBytes(internal))
    }

    /// The key that 64 hexadecimal digits write.
    fn from_hex_digits(b: &[u8]) -> (key: Option<KeyBytes>)
        requires
            b@.len() == 64,
        ensures
            match key {
                Some(k) => {
                    &&& legal_pairs(b@, 32)
                    &&& k.0@ == Seq::new(32, |i: int| key_pair(b@, i)->0 as u8)
                },
                None => !legal_pairs(b@, 32),
            },
    {
        let mut internal: [u8; 32] = [0u8; 32];
        for i in 0..32
            invariant
                b@.len() == 64,
                legal_pairs(b@, i as int),
                forall|j: int| 0 <= j < i ==> internal@[j] == key_pair(b@, j)->0 as u8,
        {
            let high: u8 = match digit_value(b[2 * i]) {
                Some(value) => value,
                None => {
                    if b[2 * i] != '+' as u8 {
                        assert(key_pair(b@, i as int) is None);
                        return None;
                    }
                    0
                },
            };
            match digit_value(b[2 * i + 1]) {
                Some(low) => {
                    internal[i] = 16 * high + low;
                },
                None => {
                    assert(key_pair(b@, i as int) is None);
                    return None;
                },
            }
        }
        assert(internal@ =~= Seq::new(32, |i: int| key_pair(b@, i)->0 as u8));
        Some(KeyBytes(internal))
    }

    /// The key that `s` writes: 64 hexadecimal digits, or 43 or 44 characters of base64. Base64 that
    /// does not decode gives the all-zero key.
    pub fn from_str(s: &str) -> (key: Result<KeyBytes, &'static str>)
        requires
            encode_utf8(s@).len() == 64 ==> pairs_keep_characters_whole(encode_utf8(s@)),
        ensures
            match key {
                Ok(k) => key_of(encode_utf8(s@), base64_decoded(s@)) == Ok::<Seq<u8>, Seq<char>>(k.0@),
                Err(e) => key_of(encode_utf8(s@), base64_decoded(s@)) == Err::<Seq<u8>, Seq<char>>(e@),
            },
    {
        let b: &[u8] = s.as_bytes();
        let len: usize = b.len();
        if len == 64 {
            match KeyBytes::from_hex_digits(b) {
                Some(key) => Ok(key),
                None => Err("Illegal character in key"),
            }
        } else if len == 43 || len == 44 {
            KeyBytes::from_base64_outcome(decode_base64(s))
        } else {
            Err("Illegal key size")
        }
    }
}

/// `c` with a letter of a to f in upper case.
pub open spec fn hex_upper(c: char) -> char {
    if 'a' <= c <= 'f' {
        (c as int - 'a' as int + 'A' as int) as char
    } else {
        c
    }
}

/// `bytes` in hexadecimal, with upper-case digits.
pub open spec fn hex_text_upper(bytes: Seq<u8>) -> Seq<char> {
    hex_text(bytes).map_values(|c: char| hex_upper(c))
}

/// A key is read from its hexadecimal digits in either case, letter by letter.
pub proof fn law_hex_key_is_read_in_either_case(key: Seq<u8>, text: Seq<char>)
    requires
        key.len() == 32,
        text.len() == 64,
        forall|i: int|
            0 <= i < 64 ==> #[trigger] text[i] == hex_text(key)[i] || text[i] == hex_upper(
                hex_text(key)[i],
            ),
    ensures
        encode_utf8(text).len() == 64,
        pairs_keep_characters_whole(encode_utf8(text)),
        forall|decoded: Option<Seq<u8>>|
            #[trigger] key_of(encode_utf8(text), decoded) == Ok::<Seq<u8>, Seq<char>>(key),
{
    let lower = hex_text(key);
    let b = encode_utf8(text);
    assert forall|i: int| 0 <= i < text.len() implies '\0' <= #[trigger] text[i] <= '\u{7f}' by {
        assert(lower[i] == hex_digit(key[i / 2] as int / 16) || lower[i] == hex_digit(
            key[i / 2] as int % 16,
        ));
    }
    vstd::utf8::is_ascii_chars_encode_utf8(text);
    vstd::utf8::encode_utf8_valid_utf8(text);
    assert forall|i: int| 0 <= i < 32 implies #[trigger] key_pair(b, i) == Some(key[i] as int) by {
        assert(b[2 * i] == text[2 * i] as u8);
        assert(b[2 * i + 1] == text[2 * i + 1] as u8);
        assert((2 * i) / 2 == i && (2 * i + 1) / 2 == i);
        assert(lower[2 * i] == hex_digit(key[i] as int / 16));
        assert(lower[2 * i + 1] == hex_digit(key[i] as int % 16));
    }
    assert(Seq::new(32, |i: int| key_pair(b, i)->0 as u8) =~= key);
    assert forall|i: int| 0 <= i < 32 implies {
        &&& #[trigger] is_char_boundary(b, 2 * i)
        &&& is_char_boundary(b, 2 * i + 2)
    } by {
        vstd::utf8::is_char_boundary_iff_not_is_continuation_byte(b, 2 * i);
        if i < 31 {
            vstd::utf8::is_char_boundary_iff_not_is_continuation_byte(b, 2 * i + 2);
        } else {
            vstd::utf8::is_char_boundary_start_end_of_seq(b);
        }
    }
}

/// Writing a key in hexadecimal and reading the text, as it is or in upper case, gives the key back.
pub proof fn law_hex_key_round_trip(key: Seq<u8>)
    requires
        key.len() == 32,
    ensures
        pairs_keep_characters_whole(encode_utf8(hex_text(key))),
        forall|decoded: Option<Seq<u8>>|
            #[trigger] key_of(encode_utf8(hex_text(key)), decoded) == Ok::<Seq<u8>, Seq<char>>(key),
        pairs_keep_characters_whole(encode_utf8(hex_text_upper(key))),
        forall|decoded: Option<Seq<u8>>|
            #[trigger] key_of(encode_utf8(hex_text_upper(key)), decoded) == Ok::<Seq<u8>, Seq<char>>(
                key,
            ),
{
    law_hex_key_is_read_in_either_case(key, hex_text(key));
    law_hex_key_is_read_in_either_case(key, hex_text_upper(key));
}

} // verus!
