use cableguard::{parse_i64, verify_rodt_live_and_active, within_validity};

/// January 1, 2023
const START: i64 = 1_672_531_200;
/// December 31, 2023
const END: i64 = 1_703_980_800;

fn live(notafter: &str, notbefore: &str, time: i64) -> bool {
    verify_rodt_live_and_active(notafter.to_string(), notbefore.to_string(), time.to_string())
}

#[test]
fn live_from_the_start_of_the_first_to_the_start_of_the_last_day() {
    assert!(live("2023-12-31", "2023-01-01", START));
    assert!(live("2023-12-31", "2023-01-01", (START + END) / 2));
    assert!(live("2023-12-31", "2023-01-01", END));
    assert!(!live("2023-12-31", "2023-01-01", START - 1));
    assert!(!live("2023-12-31", "2023-01-01", END + 1));
    assert!(!live("2023-01-01", "2023-12-31", (START + END) / 2));
}

#[test]
fn unreadable_dates_are_the_start_of_1970() {
    assert!(live("2023-12-31", "", START));
    assert!(live("2023-12-31", "soon", 0));
    assert!(!live("2023-12-31", "soon", -1));
    assert!(!live("never", "2023-01-01", START));
    assert!(live("never", "31.12.2023", 0));
    assert!(!live("never", "", 1));
}

#[test]
fn days_by_number() {
    // Day 719163 is January 1, 1970
    assert!(within_validity(Some(719_164), Some(719_163), 86_400));
    assert!(!within_validity(Some(719_164), Some(719_163), 86_401));
    assert!(within_validity(None, None, 0));
    assert!(!within_validity(None, None, 1));
}

#[test]
fn times_that_no_date_can_have() {
    let (first, last) = (Some(-95_746_129), Some(95_745_399));
    assert!(within_validity(last, first, -8_334_601_228_800));
    assert!(!within_validity(last, first, -8_334_601_228_801));
    // The last day counts from its start only
    assert!(within_validity(last, first, 8_210_266_790_400));
    assert!(!within_validity(last, first, 8_210_266_790_401));
    assert!(!within_validity(last, first, i64::MAX));
    assert!(!within_validity(last, first, i64::MIN));
    assert!(live("+262142-12-31", "-262143-01-01", -8_334_601_228_800));
}

#[test]
fn interval_of_validity() {
    let within: Vec<i64> = (-2..6)
        .map(|day| day * 43_200)
        .filter(|time| live("1970-01-02", "1970-01-01", *time))
        .collect();
    assert_eq!(within, vec![0, 43_200, 86_400]);
}

#[test]
fn decimal_numbers() {
    for text in ["0", "-0", "+7", "007", "-9223372036854775808", "9223372036854775807"] {
        assert_eq!(parse_i64(text), Some(text.parse::<i64>().unwrap()));
    }
    for text in [
        "",
        "-",
        "+",
        "--1",
        "+-1",
        "1 ",
        " 1",
        "0x1",
        "1.0",
        "9223372036854775808",
        "-9223372036854775809",
        "99999999999999999999999999999999999999999999",
    ] {
        assert_eq!(parse_i64(text), None);
        assert!(text.parse::<i64>().is_err());
    }
}
