use plotforge_agent::shared::{days_from_civil, httpdate_to_system_time, month_index, retry_after_ms, stable_sha256_hash};
use plotforge_agent::sorting::sorted_unique;

#[test]
fn civil_calendar_counts_days_from_the_epoch() {
    assert_eq!(days_from_civil(1970, 1, 1), Some(0));
    assert_eq!(days_from_civil(1970, 1, 2), Some(1));
    assert_eq!(days_from_civil(1969, 12, 31), Some(-1));
    let leap = days_from_civil(2025, 1, 1).unwrap() - days_from_civil(2024, 1, 1).unwrap();
    assert_eq!(leap, 366);
    let common = days_from_civil(2024, 1, 1).unwrap() - days_from_civil(2023, 1, 1).unwrap();
    assert_eq!(common, 365);
    let century = days_from_civil(2101, 1, 1).unwrap() - days_from_civil(2100, 1, 1).unwrap();
    assert_eq!(century, 365);
    assert_eq!(days_from_civil(2000, 3, 1).unwrap() - days_from_civil(2000, 2, 28).unwrap(), 2);
    assert_eq!(days_from_civil(2024, 13, 1), None);
    assert_eq!(days_from_civil(2024, 0, 1), None);
}

#[test]
fn http_dates_parse_to_unix_seconds() {
    assert_eq!(httpdate_to_system_time("Thu, 01 Jan 1970 00:00:00 GMT"), Some(0));
    assert_eq!(httpdate_to_system_time("Wed, 21 Oct 2015 07:28:00 GMT"), Some(1_445_412_480));
    assert_eq!(httpdate_to_system_time("not a date"), None);
    assert_eq!(month_index("Oct"), Some(10));
    assert_eq!(month_index("oct"), None);
    let now = 1_445_412_470u128 * 1_000_000_000;
    assert_eq!(retry_after_ms("Wed, 21 Oct 2015 07:28:00 GMT", now), Some(10_000));
    assert_eq!(retry_after_ms("120", now), Some(120_000));
}

#[test]
fn hashes_are_lowercase_sha256_hex() {
    assert_eq!(
        stable_sha256_hash("abc"),
        "ba7816bf8f01cfea414140de5dae2223b00361a396177a9cb410ff61f20015ad"
    );
}

#[test]
fn sorted_unique_is_canonical() {
    let a = sorted_unique(&vec!["violence".to_string(), "hate".to_string(), "violence".to_string()]);
    let b = sorted_unique(&vec!["hate".to_string(), "violence".to_string()]);
    assert_eq!(a, b);
    assert_eq!(a, vec!["hate", "violence"]);
}
