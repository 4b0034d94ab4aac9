//! The cooldown parser on real rate-limit message texts.

use tg_avatar_changer_bot::parse_retry_time;

#[test]
fn prase_retry_time() {
    let message = "Too Many Requests: retry after 294";
    assert_eq!(parse_retry_time(message), Some(294))
}

#[test]
fn retry_time_no_digits_is_no_match() {
    assert_eq!(parse_retry_time("Too Many Requests"), None);
}

#[test]
fn retry_time_no_marker_is_no_match() {
    assert_eq!(parse_retry_time("wait 5 seconds"), None);
}

#[test]
fn retry_time_bare_marker_without_digits() {
    assert_eq!(parse_retry_time("retry after "), None);
    assert_eq!(parse_retry_time("retry after soon"), None);
}

#[test]
fn retry_time_takes_whole_digit_run() {
    assert_eq!(parse_retry_time("retry after 007s more"), Some(7));
    assert_eq!(parse_retry_time("x retry after 1200."), Some(1200));
}

#[test]
fn retry_time_first_parseable_occurrence_wins() {
    assert_eq!(parse_retry_time("retry after x, retry after 12"), Some(12));
    assert_eq!(parse_retry_time("retry after 3 or retry after 9"), Some(3));
}

#[test]
fn retry_time_value_too_large_is_no_match() {
    assert_eq!(parse_retry_time("retry after 99999999999999999999"), None);
    assert_eq!(
        parse_retry_time("retry after 18446744073709551615"),
        Some(u64::MAX)
    );
}

#[test]
fn retry_time_empty_and_short_inputs() {
    assert_eq!(parse_retry_time(""), None);
    assert_eq!(parse_retry_time("retry after"), None);
}
