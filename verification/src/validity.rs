//! The period in which a token is valid.

use chrono::{Datelike, NaiveDate, NaiveDateTime, NaiveTime};
use vstd::prelude::*;
use vstd::utf8::encode_utf8;

verus! {

broadcast use vstd::slice::axiom_spec_len;

/// The day that January 1, 1970 is, where January 1 of the year 1 is day 1.
pub const EPOCH_DAY: i32 = 719_163;

/// The first day that a date can be: January 1 of the year -262143.
pub const FIRST_DAY: i32 = -95_746_129;

/// The last day that a date can be: December 31 of the year 262142.
pub const LAST_DAY: i32 = 95_745_399;

pub const SECONDS_PER_DAY: i64 = 86_400;

/// How the dates in a token's record are written.
pub const DATE_FORMAT: &'static str = "%Y-%m-%d";

/// The day that `chrono::NaiveDate::parse_from_str` reads in `text` by `format`, or nothing where
/// it reports an error.
pub uninterp spec fn parsed_day(text: Seq<char>, format: Seq<char>) -> Option<int>;

/// Whether a date can be the day `day`.
pub open spec fn is_day(day: int) -> bool {
    FIRST_DAY <= day <= LAST_DAY
}

/// Seconds from the start of 1970 to the start of `day`.
pub open spec fn midnight(day: int) -> int {
    (day - EPOCH_DAY) * SECONDS_PER_DAY
}

/// The day that holds the second `timestamp` of the time since the start of 1970.
pub open spec fn day_of(timestamp: int) -> int {
    timestamp / (SECONDS_PER_DAY as int) + EPOCH_DAY
}

/// `chrono::NaiveDate::parse_from_str`, and the number of the day that it reads. Which texts are
/// dates, and of which day, is left to the name `parsed_day`; a date lies between `NaiveDate::MIN`
/// and `NaiveDate::MAX`.
#[verifier::external_body]
fn parse_day(text: &str, format: &str) -> (day: Option<i32>)
    ensures
        match day {
            Some(d) => parsed_day(text@, format@) == Some(d as int) && is_day(d as int),
            None => parsed_day(text@, format@) is None,
        },
{
    NaiveDate::parse_from_str(text, format).ok().map(|date| date.num_days_from_ce())
}

/// `Default` of `chrono::NaiveDate`, which is January 1, 1970.
#[verifier::external_body]
fn default_day() -> (day: i32)
    ensures
        day == EPOCH_DAY,
{
    NaiveDate::default().num_days_from_ce()
}

/// `chrono::NaiveDateTime::new` of a day and the second `second` of it, as seconds since the start
/// of 1970.
#[verifier::external_body]
fn time_on_day(day: i32, second: u32) -> (timestamp: i64)
    requires
        is_day(day as int),
        second < SECONDS_PER_DAY,
    ensures
        timestamp == midnight(day as int) + second,
{
    let date = NaiveDate::from_num_days_from_ce_opt(day).unwrap();
    let time = NaiveTime::from_num_seconds_from_midnight_opt(second, 0).unwrap();
    NaiveDateTime::new(date, time).and_utc().timestamp()
}

/// `chrono::NaiveDateTime::from_timestamp_opt`, and back to seconds since the start of 1970: the
/// time is the given one, and there is none where no date can be its day.
#[verifier::external_body]
fn date_time(timestamp: i64) -> (time: Option<i64>)
    ensures
        time == if is_day(day_of(timestamp as int)) {
            Some(timestamp)
        } else {
            None::<i64>
        },
{
    #[allow(deprecated)]
    let time = NaiveDateTime::from_timestamp_opt(timestamp, 0);
    time.map(|t| t.and_utc().timestamp())
}

/// Whether `b` is a decimal digit.
pub open spec fn is_decimal_digit(b: u8) -> bool {
    '0' as u8 <= b <= '9' as u8
}

/// The number that decimal digits write.
pub open spec fn decimal_value(digits: Seq<u8>) -> int
    decreases digits.len(),
{
    if digits.len() == 0 {
        0
    } else {
        10 * decimal_value(digits.drop_last()) + (digits.last() - '0' as u8)
    }
}

/// Where the digits of a decimal number start: behind its sign, if it has one.
pub open spec fn digits_start(b: Seq<u8>) -> int {
    if b.len() > 0 && (b[0] == '-' as u8 || b[0] == '+' as u8) {
        1
    } else {
        0
    }
}

/// The number that `b` writes: at least one decimal digit, behind at most one sign, and within the
/// range of `i64`.
pub open spec fn decimal_i64(b: Seq<u8>) -> Option<int> {
    let digits = b.skip(digits_start(b));
    let value = if b.len() > 0 && b[0] == '-' as u8 {
        -decimal_value(digits)
    } else {
        decimal_value(digits)
    };
    if digits.len() > 0 && (forall|i: int| 0 <= i < digits.len() ==> is_decimal_digit(#[trigger] digits[i]))
        && i64::MIN <= value <= i64::MAX {
        Some(value)
    } else {
        None
    }
}

/// More digits write no smaller number.
pub(crate) proof fn lemma_decimal_value_grows(digits: Seq<u8>, n: int)
    requires
        0 <= n <= digits.len(),
        forall|i: int| 0 <= i < digits.len() ==> is_decimal_digit(#[trigger] digits[i]),
    ensures
        0 <= decimal_value(digits.take(n)) <= decimal_value(digits),
    decreases digits.len(),
{
    if n < digits.len() {
        lemma_decimal_value_grows(digits.drop_last(), n);
        assert(digits.drop_last().take(n) =~= digits.take(n));
    } else {
        assert(digits.take(n) =~= digits);
        if n > 0 {
            assert(digits.drop_last().take(n - 1) =~= digits.drop_last());
            lemma_decimal_value_grows(digits.drop_last(), n - 1);
        }
    }
}

/// The number that a text writes in decimal; `None` where it writes none within the range of `i64`.
pub fn parse_i64(text: &str) -> (number: Option<i64>)
    ensures
        match number {
            Some(n) => decimal_i64(encode_utf8(text@)) == Some(n as int),
            None => decimal_i64(encode_utf8(text@)) is None,
        },
{
    let b: &[u8] = text.as_bytes();
    let len: usize = b.len();
    let negative: bool = len > 0 && b[0] == '-' as u8;
    let start: usize = if negative || (len > 0 && b[0] == '+' as u8) {
        1
    } else {
        0
    };
    if start == len {
        return None;
    }
    let ghost digits = b@.skip(start as int);
    let mut magnitude: u64 = 0;
    let mut i: usize = start;
    while i < len
        invariant
            b@ == encode_utf8(text@),
            len == b@.len(),
            negative == (len > 0 && b@[0] == '-' as u8),
            start == digits_start(b@),
            start <= i <= len,
            digits == b@.skip(start as int),
            forall|j: int| 0 <= j < i - start ==> is_decimal_digit(#[trigger] digits[j]),
            magnitude == decimal_value(digits.take(i - start)),
            magnitude <= 0x8000_0000_0000_0000,
        decreases len - i,
    {
        let d: u8 = b[i];
        assert(digits[i - start] == d);
        if d < '0' as u8 || d > '9' as u8 {
            assert(!is_decimal_digit(digits[i - start]));
            return None;
        }
        let next: u128 = 10 * (magnitude as u128) + (d - '0' as u8) as u128;
        assert(digits.take(i - start + 1).drop_last() =~= digits.take(i - start));
        assert(next == decimal_value(digits.take(i - start + 1)));
        if next > 0x8000_0000_0000_0000 {
            proof {
                if forall|j: int| 0 <= j < digits.len() ==> is_decimal_digit(#[trigger] digits[j]) {
                    lemma_decimal_value_grows(digits, i - start + 1);
                }
            }
            return None;
        }
        magnitude = next as u64;
        i = i + 1;
    }
    assert(digits.take(len - start) =~= digits);
    if negative {
        if magnitude == 0x8000_0000_0000_0000 {
            Some(i64::MIN)
        } else {
            Some(-(magnitude as i64))
        }
    } else if magnitude == 0x8000_0000_0000_0000 {
        None
    } else {
        Some(magnitude as i64)
    }
}

/// The day that a date text stands for: text that is no date stands for January 1, 1970.
pub open spec fn day_or_default(day: Option<int>) -> int {
    match day {
        Some(d) => d,
        None => EPOCH_DAY as int,
    }
}

/// Whether `timestamp` is a time from the start of the day `notbefore` to the start of the day
/// `notafter`, both included.
pub open spec fn is_within(notafter: int, notbefore: int, timestamp: int) -> bool {
    &&& is_day(day_of(timestamp))
    &&& midnight(notbefore) <= timestamp <= midnight(notafter)
}

/// Whether `timestamp` lies in the period between the two days that the dates of a token were read
/// as, where a date that could not be read is January 1, 1970.
pub fn within_validity(
    notafter: Option<i32>,
    notbefore: Option<i32>,
    timestamp: i64,
) -> (within: bool)
    requires
        notafter matches Some(day) ==> is_day(day as int),
        notbefore matches Some(day) ==> is_day(day as int),
    ensures
        within == is_within(
            day_or_default(day_view(notafter)),
            day_or_default(day_view(notbefore)),
            timestamp as int,
        ),
{
    let notafter: i64 = time_on_day(
        match notafter {
            Some(day) => day,
            None => default_day(),
        },
        0,
    );
    let notbefore: i64 = time_on_day(
        match notbefore {
            Some(day) => day,
            None => default_day(),
        },
        0,
    );
    match date_time(timestamp) {
        Some(time) => time <= notafter && time >= notbefore,
        None => false,
    }
}

/// What an optional day holds.
pub open spec fn day_view(day: Option<i32>) -> Option<int> {
    match day {
        Some(d) => Some(d as int),
        None => None,
    }
}

/// Whether the time `timestamp`, in seconds since the start of 1970, lies within the dates of a
/// token, the start of both days included.
pub fn verify_rodt_live_and_active(
    peer_rodt_notafter: String,
    peer_rodt_notbefore: String,
    timestamp: String,
) -> (live: bool)
    requires
        decimal_i64(encode_utf8(timestamp@)) is Some,
    ensures
        live == is_within(
            day_or_default(parsed_day(peer_rodt_notafter@, DATE_FORMAT@)),
            day_or_default(parsed_day(peer_rodt_notbefore@, DATE_FORMAT@)),
            decimal_i64(encode_utf8(timestamp@))->0,
        ),
{
    let notafter: Option<i32> = parse_day(peer_rodt_notafter.as_str(), DATE_FORMAT);
    let notbefore: Option<i32> = parse_day(peer_rodt_notbefore.as_str(), DATE_FORMAT);
    match parse_i64(timestamp.as_str()) {
        Some(time) => within_validity(notafter, notbefore, time),
        None => false,
    }
}

} // verus!
