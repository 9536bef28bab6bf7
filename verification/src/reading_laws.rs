//! What is read of datagrams, IP packets, keys and dates, byte by byte.
//!
//! Each law speaks of calls: `call_ensures` holds of the arguments and the result of a call.

use vstd::prelude::*;
use vstd::utf8::encode_utf8;

use crate::bytes::{be_int, le_int};
use crate::encoding::{base64_decoded, hex_value};
use crate::errors::WireGuardError;
use crate::ip::{source_and_length, IpAddr};
use crate::packet::Packet;
use crate::serialization::{key_pair, keybytes_to_hex_string, KeyBytes};
use crate::tunn::Tunn;
use crate::validity::{
    decimal_i64, decimal_value, digits_start, is_decimal_digit, lemma_decimal_value_grows, parse_i64,
    parsed_day, verify_rodt_live_and_active, within_validity,
};

verus! {

/// Whether a datagram is `length` bytes long and starts with the number of a kind and three zeros.
pub open spec fn has_shape(src: Seq<u8>, message_type: u8, length: int) -> bool {
    src.len() == length && src[0] == message_type && src[1] == 0 && src[2] == 0 && src[3] == 0
}

/// Whether a datagram is long enough for data and starts with the number of data and three zeros.
pub open spec fn has_data_shape(src: Seq<u8>) -> bool {
    src.len() >= 32 && src[0] == 4 && src[1] == 0 && src[2] == 0 && src[3] == 0
}

/// The number that four bytes from `at` on write, the lowest first.
pub open spec fn word(src: Seq<u8>, at: int) -> int {
    src[at] + 0x100 * src[at + 1] + 0x1_0000 * src[at + 2] + 0x100_0000 * src[at + 3]
}

proof fn lemma_word(src: Seq<u8>, at: int)
    requires
        0 <= at,
        at + 4 <= src.len(),
    ensures
        le_int(src.subrange(at, at + 4)) == word(src, at),
{
    let t = src.subrange(at, at + 4);
    reveal_with_fuel(le_int, 5);
    assert(t.skip(1).skip(1).skip(1).skip(1).len() == 0);
    assert(t.skip(1)[0] == src[at + 1]);
    assert(t.skip(1).skip(1)[0] == src[at + 2]);
    assert(t.skip(1).skip(1).skip(1)[0] == src[at + 3]);
}

proof fn lemma_two_words(src: Seq<u8>, at: int)
    requires
        0 <= at,
        at + 8 <= src.len(),
    ensures
        le_int(src.subrange(at, at + 8)) == word(src, at) + 0x1_0000_0000 * word(src, at + 4),
{
    let t = src.subrange(at, at + 8);
    reveal_with_fuel(le_int, 5);
    let rest = t.skip(1).skip(1).skip(1).skip(1);
    assert(rest =~= src.subrange(at + 4, at + 8));
    lemma_word(src, at + 4);
    assert(t.skip(1)[0] == src[at + 1]);
    assert(t.skip(1).skip(1)[0] == src[at + 2]);
    assert(t.skip(1).skip(1).skip(1)[0] == src[at + 3]);
}

/// A datagram is read as the message whose number it starts with, where its length is that of the
/// message, with each field at its place; any other datagram is refused.
pub proof fn law_datagram_is_read_by_position(src: &[u8], packet: Result<Packet<'_>, WireGuardError>)
    requires
        call_ensures(Tunn::consume_incoming_packet, (src,), packet),
    ensures
        match packet {
            Ok(Packet::HandshakeInit(p)) => {
                &&& has_shape(src@, 1, 340)
                &&& p.sender_session_index == word(src@, 4)
                &&& p.unencrypted_ephemeral@ == src@.subrange(8, 40)
                &&& p.encrypted_static@ == src@.subrange(40, 88)
                &&& p.encrypted_timestamp@ == src@.subrange(88, 116)
                &&& p.rodt_id@ == src@.subrange(116, 244)
                &&& p.rodt_id_signature@ == src@.subrange(244, 308)
            },
            Ok(Packet::HandshakeResponse(p)) => {
                &&& has_shape(src@, 2, 284)
                &&& p.sender_session_index == word(src@, 4)
                &&& p.receiver_session_index == word(src@, 8)
                &&& p.unencrypted_ephemeral@ == src@.subrange(12, 44)
                &&& p.encrypted_nothing@ == src@.subrange(44, 60)
                &&& p.rodt_id@ == src@.subrange(60, 188)
                &&& p.rodt_id_signature@ == src@.subrange(188, 252)
            },
            Ok(Packet::PacketCookieReply(p)) => {
                &&& has_shape(src@, 3, 64)
                &&& p.receiver_session_index == word(src@, 4)
                &&& p.nonce@ == src@.subrange(8, 32)
                &&& p.encrypted_cookie@ == src@.subrange(32, 64)
            },
            Ok(Packet::PacketData(p)) => {
                &&& has_data_shape(src@)
                &&& p.receiver_session_index == word(src@, 4)
                &&& p.counter == word(src@, 8) + 0x1_0000_0000 * word(src@, 12)
                &&& p.encrypted_encapsulated_packet@ == src@.subrange(16, src@.len() as int)
            },
            Err(e) => {
                &&& e == WireGuardError::InvalidPacket
                &&& !has_shape(src@, 1, 340)
                &&& !has_shape(src@, 2, 284)
                &&& !has_shape(src@, 3, 64)
                &&& !has_data_shape(src@)
            },
        },
{
    if src@.len() >= 4 {
        lemma_word(src@, 0);
    }
    if src@.len() >= 32 {
        lemma_word(src@, 4);
        lemma_word(src@, 8);
        lemma_two_words(src@, 8);
        assert(src@.skip(16) =~= src@.subrange(16, src@.len() as int));
    }
}

/// Whether a packet names IPv4 and holds the fixed part of its header.
pub open spec fn starts_as_ipv4(packet: Seq<u8>) -> bool {
    packet.len() >= 20 && 0x40 <= packet[0] <= 0x4f
}

/// Whether a packet names IPv6 and holds the fixed part of its header.
pub open spec fn starts_as_ipv6(packet: Seq<u8>) -> bool {
    packet.len() >= 40 && 0x60 <= packet[0] <= 0x6f
}

/// The destination is read at its place in the fixed header: bytes 16 to 19 for IPv4, 24 to 39 for
/// IPv6. A packet without such a header has none.
pub proof fn law_destination_is_in_the_fixed_header(packet: &[u8], address: Option<IpAddr>)
    requires
        call_ensures(Tunn::dst_address, (packet,), address),
    ensures
        match address {
            Some(IpAddr::V4(a)) => starts_as_ipv4(packet@) && a@ == packet@.subrange(16, 20),
            Some(IpAddr::V6(a)) => starts_as_ipv6(packet@) && a@ == packet@.subrange(24, 40),
            None => !starts_as_ipv4(packet@) && !starts_as_ipv6(packet@),
        },
{
}

/// What follows the fixed header has no part in the destination: two packets that agree on the fixed
/// header, and are long enough for it, have the same.
pub proof fn law_payload_does_not_change_the_destination(
    one: &[u8],
    other: &[u8],
    address: Option<IpAddr>,
    other_address: Option<IpAddr>,
)
    requires
        call_ensures(Tunn::dst_address, (one,), address),
        call_ensures(Tunn::dst_address, (other,), other_address),
        starts_as_ipv4(one@) || starts_as_ipv6(one@),
        other@.len() >= if starts_as_ipv4(one@) {
            20int
        } else {
            40int
        },
        forall|i: int| 0 <= i < 40 && i < one@.len() && i < other@.len() ==> one@[i] == other@[i],
    ensures
        match (address, other_address) {
            (Some(IpAddr::V4(a)), Some(IpAddr::V4(b))) => a@ == b@,
            (Some(IpAddr::V6(a)), Some(IpAddr::V6(b))) => a@ == b@,
            _ => false,
        },
{
    law_destination_is_in_the_fixed_header(one, address);
    law_destination_is_in_the_fixed_header(other, other_address);
    if starts_as_ipv4(one@) {
        assert(one@.subrange(16, 20) =~= other@.subrange(16, 20));
    } else {
        assert(one@.subrange(24, 40) =~= other@.subrange(24, 40));
    }
}

/// The length that an IPv4 header gives for the whole packet.
pub open spec fn ipv4_length(packet: Seq<u8>) -> int {
    0x100 * packet[2] + packet[3]
}

/// The length that an IPv6 header gives for the whole packet.
pub open spec fn ipv6_length(packet: Seq<u8>) -> int {
    40 + 0x100 * packet[4] + packet[5]
}

/// Whether `packet` starts with an IP packet of the length that its header gives.
pub open spec fn starts_with_ip(packet: Seq<u8>) -> bool {
    ||| starts_as_ipv4(packet) && ipv4_length(packet) <= packet.len()
    ||| starts_as_ipv6(packet) && ipv6_length(packet) <= packet.len()
}

pub(crate) proof fn lemma_be_pair(packet: Seq<u8>, at: int)
    requires
        0 <= at,
        at + 2 <= packet.len(),
    ensures
        be_int(packet.subrange(at, at + 2)) == 0x100 * packet[at] + packet[at + 1],
{
    let field = packet.subrange(at, at + 2);
    reveal_with_fuel(be_int, 3);
    assert(field.drop_last().drop_last() =~= Seq::<u8>::empty());
}

/// The source and the length are read at their places in the fixed header, and given for exactly the
/// bytes that start with a whole IP packet.
pub proof fn law_source_and_length_are_in_the_fixed_header(
    packet: &[u8],
    header: Option<(IpAddr, usize)>,
)
    requires
        call_ensures(source_and_length, (packet,), header),
    ensures
        match header {
            Some((IpAddr::V4(a), length)) => {
                &&& starts_as_ipv4(packet@)
                &&& a@ == packet@.subrange(12, 16)
                &&& length == ipv4_length(packet@)
                &&& length <= packet@.len()
            },
            Some((IpAddr::V6(a), length)) => {
                &&& starts_as_ipv6(packet@)
                &&& a@ == packet@.subrange(8, 24)
                &&& length == ipv6_length(packet@)
                &&& length <= packet@.len()
            },
            None => !starts_with_ip(packet@),
        },
{
    if packet@.len() >= 20 {
        lemma_be_pair(packet@, 2);
        lemma_be_pair(packet@, 4);
    }
}

/// Whether `c` is the hexadecimal digit of `value`, in either case.
pub open spec fn is_digit_of(c: char, value: int) -> bool {
    if 0 <= value < 10 {
        c as int == 48 + value
    } else {
        10 <= value < 16 && (c as int == 87 + value || c as int == 55 + value)
    }
}

/// Whether `text` writes `bytes` in hexadecimal, the upper half of each first, in either case.
pub open spec fn writes_hex(text: Seq<char>, bytes: Seq<u8>) -> bool {
    &&& text.len() == 2 * bytes.len()
    &&& forall|i: int|
        0 <= i < bytes.len() ==> is_digit_of(text[2 * i], #[trigger] bytes[i] as int / 16)
            && is_digit_of(text[2 * i + 1], bytes[i] as int % 16)
}

/// A key is written as 64 hexadecimal digits, letters in lower case.
pub proof fn law_key_is_written_in_hexadecimal(key: &KeyBytes, text: String)
    requires
        call_ensures(keybytes_to_hex_string, (key,), text),
    ensures
        writes_hex(text@, key.0@),
        forall|i: int| 0 <= i < text@.len() ==> !('A' <= #[trigger] text@[i] <= 'Z'),
{
    assert(key.0@.len() == 32);
    assert forall|i: int| 0 <= i < 32 implies is_digit_of(
        text@[2 * i],
        #[trigger] key.0@[i] as int / 16,
    ) && is_digit_of(text@[2 * i + 1], key.0@[i] as int % 16) by {
        assert((2 * i) / 2 == i && (2 * i + 1) / 2 == i);
    }
    assert forall|i: int| 0 <= i < text@.len() implies !('A' <= #[trigger] text@[i] <= 'Z') by {
        assert(0 <= i / 2 < 32);
    }
}

/// A key that was written is read back, and so is one in upper or mixed case: the key that is read
/// from 64 hexadecimal digits is the one that they write.
pub proof fn law_key_is_read_from_its_digits(s: &str, key: Result<KeyBytes, &'static str>, bytes: Seq<u8>)
    requires
        call_ensures(KeyBytes::from_str, (s,), key),
        bytes.len() == 32,
        writes_hex(s@, bytes),
    ensures
        key matches Ok(k) && k.0@ == bytes,
{
    let text = s@;
    assert forall|i: int| 0 <= i < text.len() implies '\0' <= #[trigger] text[i] <= '\u{7f}' by {
        let j = i / 2;
        assert(bytes[j] as int / 16 < 16);
        assert(i == 2 * j || i == 2 * j + 1);
    }
    vstd::utf8::is_ascii_chars_encode_utf8(text);
    let b = encode_utf8(text);
    assert(b.len() == 64);
    assert forall|i: int| 0 <= i < 32 implies #[trigger] key_pair(b, i) == Some(bytes[i] as int) by {
        assert(b[2 * i] == text[2 * i] as u8);
        assert(b[2 * i + 1] == text[2 * i + 1] as u8);
        assert(bytes[i] as int / 16 < 16);
    }
    match key {
        Ok(k) => {
            assert(k.0@ =~= bytes);
        },
        Err(e) => {},
    }
}

/// Whether a byte is the code of a hexadecimal digit.
pub open spec fn is_hex_byte(b: u8) -> bool {
    48 <= b <= 57 || 97 <= b <= 102 || 65 <= b <= 70
}

/// What the code of a hexadecimal digit stands for; a plus sign counts as nothing.
pub open spec fn hex_byte_value(b: u8) -> int {
    if 48 <= b <= 57 {
        b - 48
    } else if 97 <= b <= 102 {
        b - 87
    } else if 65 <= b <= 70 {
        b - 55
    } else {
        0
    }
}

/// Whether the bytes `2 * i` and `2 * i + 1` are a pair of digits, of which the first may be a plus
/// sign.
pub open spec fn is_byte_pair(b: Seq<u8>, i: int) -> bool {
    (is_hex_byte(b[2 * i]) || b[2 * i] == 43) && is_hex_byte(b[2 * i + 1])
}

/// Texts are read as keys by the length of their UTF-8: 64 bytes are pairs of hexadecimal digits, of
/// which the first may be a plus sign; 43 or 44 are base64 of 32 bytes, where text that does not
/// decode stands for the key of zeros; other lengths are refused.
pub proof fn law_key_text_is_taken_by_its_length(s: &str, key: Result<KeyBytes, &'static str>)
    requires
        call_ensures(KeyBytes::from_str, (s,), key),
    ensures
        ({
            let b = encode_utf8(s@);
            let legal = forall|i: int| 0 <= i < 32 ==> #[trigger] is_byte_pair(b, i);
            if b.len() == 64 {
                if legal {
                    key matches Ok(k) && forall|i: int|
                        0 <= i < 32 ==> #[trigger] k.0@[i] == 16 * hex_byte_value(b[2 * i])
                            + hex_byte_value(b[2 * i + 1])
                } else {
                    key matches Err(e) && e@ == "Illegal character in key"@
                }
            } else if b.len() == 43 || b.len() == 44 {
                match base64_decoded(s@) {
                    None => key matches Ok(k) && forall|i: int| 0 <= i < 32 ==> k.0@[i] == 0,
                    Some(bytes) => if bytes.len() == 32 {
                        key matches Ok(k) && k.0@ == bytes
                    } else {
                        key matches Err(e) && e@ == "Illegal character in key"@
                    },
                }
            } else {
                key matches Err(e) && e@ == "Illegal key size"@
            }
        }),
{
    let b = encode_utf8(s@);
    assert forall|x: u8| is_hex_byte(x) <==> #[trigger] hex_value(x as char) is Some by {}
    if b.len() == 64 {
        assert forall|i: int| 0 <= i < 32 implies is_byte_pair(b, i) == (#[trigger] key_pair(
            b,
            i,
        ) is Some) by {
            assert(is_hex_byte(b[2 * i]) <==> hex_value(b[2 * i] as char) is Some);
            assert(is_hex_byte(b[2 * i + 1]) <==> hex_value(b[2 * i + 1] as char) is Some);
        }
        if forall|i: int| 0 <= i < 32 ==> #[trigger] is_byte_pair(b, i) {
            assert forall|i: int| 0 <= i < 32 implies #[trigger] key_pair(b, i) is Some by {
                assert(is_byte_pair(b, i));
            }
            assert forall|i: int| 0 <= i < 32 implies #[trigger] key_pair(b, i) == Some(
                16 * hex_byte_value(b[2 * i]) + hex_byte_value(b[2 * i + 1]),
            ) by {
                assert(is_byte_pair(b, i));
            }
            if let Ok(k) = key {
                assert forall|i: int| 0 <= i < 32 implies #[trigger] k.0@[i] == 16 * hex_byte_value(
                    b[2 * i],
                ) + hex_byte_value(b[2 * i + 1]) by {
                    assert(key_pair(b, i) is Some);
                }
            }
        } else {
            let i = choose|i: int| 0 <= i < 32 && !#[trigger] is_byte_pair(b, i);
            assert(key_pair(b, i) is None);
        }
    }
}

/// What base64 made of a text is the key where it is 32 bytes; text that does not decode stands for
/// the key of zeros.
pub proof fn law_decoded_key_is_taken_whole(decoded: Option<Vec<u8>>, key: Result<KeyBytes, &'static str>)
    requires
        call_ensures(KeyBytes::from_base64_outcome, (decoded,), key),
    ensures
        match decoded {
            None => key matches Ok(k) && forall|i: int| 0 <= i < 32 ==> k.0@[i] == 0,
            Some(bytes) => if bytes@.len() == 32 {
                key matches Ok(k) && k.0@ == bytes@
            } else {
                key matches Err(e) && e@ == "Illegal character in key"@
            },
        },
{
}

/// Whether a time lies within two days, counted from January 1 of the year 1 as day 1, by seconds
/// since the start of 1970: from the start of the one to the start of the other, both included, as far
/// as a date can be.
pub open spec fn lies_within(notafter: int, notbefore: int, time: int) -> bool {
    &&& (notbefore - 719_163) * 86_400 <= time
    &&& time <= (notafter - 719_163) * 86_400
    &&& -8_334_601_228_800 <= time <= 8_210_266_876_799
}

/// A time is within a token's days from the start of the first to the start of the last, and a day
/// that could not be read is January 1, 1970.
pub proof fn law_validity_starts_and_ends_at_midnight(
    notafter: Option<i32>,
    notbefore: Option<i32>,
    timestamp: i64,
    within: bool,
)
    requires
        call_ensures(within_validity, (notafter, notbefore, timestamp), within),
    ensures
        within == lies_within(
            if let Some(day) = notafter { day as int } else { 719_163 },
            if let Some(day) = notbefore { day as int } else { 719_163 },
            timestamp as int,
        ),
{
}

/// The days of a token are the dates of year, month and day that its texts write; the time is the
/// number that the third text writes.
pub proof fn law_token_is_live_between_its_dates(
    notafter: String,
    notbefore: String,
    timestamp: String,
    live: bool,
    number: &str,
    time: i64,
)
    requires
        call_ensures(verify_rodt_live_and_active, (notafter, notbefore, timestamp), live),
        call_ensures(parse_i64, (number,), Some(time)),
        number@ == timestamp@,
    ensures
        ({
            let format = seq!['%', 'Y', '-', '%', 'm', '-', '%', 'd'];
            let last = parsed_day(notafter@, format);
            let first = parsed_day(notbefore@, format);
            live == lies_within(
                if last is Some { last->0 } else { 719_163 },
                if first is Some { first->0 } else { 719_163 },
                time as int,
            )
        }),
{
    reveal_strlit("%Y-%m-%d");
    assert("%Y-%m-%d"@ =~= seq!['%', 'Y', '-', '%', 'm', '-', '%', 'd']);
}

/// One decimal digit writes its value, alone or behind a sign; nothing and a sign alone write no
/// number, and neither does a text with anything else than digits behind its sign.
pub proof fn law_shortest_numbers(text: &str, number: Option<i64>)
    requires
        call_ensures(parse_i64, (text,), number),
    ensures
        ({
            let b = encode_utf8(text@);
            &&& b.len() == 0 ==> number is None
            &&& b.len() == 1 && 48 <= b[0] <= 57 ==> number == Some((b[0] - 48) as i64)
            &&& b.len() == 1 && !(48 <= b[0] <= 57) ==> number is None
            &&& b.len() == 2 && b[0] == 45 && 48 <= b[1] <= 57 ==> number == Some((48 - b[1]) as i64)
            &&& b.len() == 2 && b[0] == 43 && 48 <= b[1] <= 57 ==> number == Some((b[1] - 48) as i64)
            &&& b.len() > 0 && !(48 <= b[0] <= 57) && b[0] != 43 && b[0] != 45 ==> number is None
            &&& (exists|i: int| 1 <= i < b.len() && !(48 <= #[trigger] b[i] <= 57)) ==> number is None
        }),
{
    let b = encode_utf8(text@);
    reveal_with_fuel(decimal_value, 3);
    assert(b.skip(0) =~= b);
    if b.len() == 1 {
        assert(b.drop_last().len() == 0);
        if 48 <= b[0] <= 57 {
            assert forall|i: int| 0 <= i < b.len() implies is_decimal_digit(#[trigger] b[i]) by {}
        } else {
            assert(!is_decimal_digit(b[0]));
        }
    }
    if b.len() == 2 {
        let d = b.skip(1);
        assert(d.len() == 1 && d[0] == b[1] && d.drop_last().len() == 0);
        if 48 <= b[1] <= 57 {
            assert forall|i: int| 0 <= i < d.len() implies is_decimal_digit(#[trigger] d[i]) by {}
        }
    }
    if b.len() > 0 && !(48 <= b[0] <= 57) && b[0] != 43 && b[0] != 45 {
        assert(!is_decimal_digit(b.skip(0)[0]));
    }
    if exists|i: int| 1 <= i < b.len() && !(48 <= #[trigger] b[i] <= 57) {
        let i = choose|i: int| 1 <= i < b.len() && !(48 <= #[trigger] b[i] <= 57);
        assert(b.skip(1)[i - 1] == b[i]);
        assert(b.skip(0)[i] == b[i]);
    }
}

/// A further digit at the end makes ten times the number and the digit, away from zero, where that
/// fits; where it does not, the longer text writes no number.
pub proof fn law_numbers_grow_by_digits(
    text: &str,
    longer: &str,
    digit: u8,
    number: i64,
    grown: Option<i64>,
)
    requires
        call_ensures(parse_i64, (text,), Some(number)),
        call_ensures(parse_i64, (longer,), grown),
        48 <= digit <= 57,
        encode_utf8(longer@) == encode_utf8(text@).push(digit),
    ensures
        ({
            let negative = encode_utf8(text@)[0] == 45;
            let value = if negative {
                10 * number - (digit - 48)
            } else {
                10 * number + (digit - 48)
            };
            if -0x8000_0000_0000_0000 <= value <= 0x7fff_ffff_ffff_ffff {
                grown == Some(value as i64)
            } else {
                grown is None
            }
        }),
{
    let b = encode_utf8(text@);
    let c = encode_utf8(longer@);
    assert(decimal_i64(b) is Some);
    assert(b.skip(0) =~= b);
    assert(b.skip(1).len() == b.len() - 1 || b.len() == 0);
    let start = digits_start(b);
    assert(c.skip(start) =~= b.skip(start).push(digit));
    assert(c.skip(start).drop_last() =~= b.skip(start));
    assert forall|i: int| 0 <= i < c.skip(start).len() implies is_decimal_digit(
        #[trigger] c.skip(start)[i],
    ) by {
        if i < b.skip(start).len() {
            assert(c.skip(start)[i] == b.skip(start)[i]);
        }
    }
}

/// A text that writes no number, and is more than a sign, writes none with a further digit either.
pub proof fn law_no_number_grows_into_one(
    text: &str,
    longer: &str,
    digit: u8,
    grown: Option<i64>,
)
    requires
        call_ensures(parse_i64, (text,), None),
        call_ensures(parse_i64, (longer,), grown),
        encode_utf8(text@).len() > 0,
        encode_utf8(text@) != seq![43u8],
        encode_utf8(text@) != seq![45u8],
        encode_utf8(longer@) == encode_utf8(text@).push(digit),
    ensures
        grown is None,
{
    let b = encode_utf8(text@);
    let c = encode_utf8(longer@);
    let start = digits_start(b);
    let (short, long) = (b.skip(start), c.skip(start));
    if b.len() == 1 && start == 1 {
        assert(b =~= seq![b[0]]);
    }
    assert(long =~= short.push(digit));
    if decimal_i64(c) is Some {
        assert forall|i: int| 0 <= i < short.len() implies is_decimal_digit(#[trigger] short[i]) by {
            assert(long[i] == short[i]);
        }
        lemma_decimal_value_grows(long, short.len() as int);
        assert(long.take(short.len() as int) =~= short);
    }
}

} // verus!
