//! Text and time helpers.

use terra_app::clock::{Duration, Instant};
use terra_app::text::{
    ends_with, eq_ignore_ascii_case, join_lines, push_decimal, same_text, starts_with,
};

#[test]
fn decimals_are_appended() {
    let mut out = String::from("n=");
    push_decimal(&mut out, 0);
    out.push(',');
    push_decimal(&mut out, 1_048_576);
    out.push(',');
    push_decimal(&mut out, u64::MAX);
    assert_eq!(out, "n=0,1048576,18446744073709551615");
}

#[test]
fn ascii_case_is_ignored_and_nothing_else() {
    assert!(eq_ignore_ascii_case("TERRA", "tErRa"));
    assert!(eq_ignore_ascii_case("", ""));
    assert!(!eq_ignore_ascii_case("terra", "terr"));
    assert!(!eq_ignore_ascii_case("É", "é"));
    assert!(!eq_ignore_ascii_case("[", "{"));
    assert!(!eq_ignore_ascii_case("@", "`"));
}

#[test]
fn affixes_are_compared_by_characters() {
    assert!(starts_with("terra-1.log", "terra-"));
    assert!(!starts_with("te", "terra-"));
    assert!(ends_with("terra-1.log", ".log"));
    assert!(!ends_with("terra.lo", ".log"));
    assert!(ends_with("größe", "öße"));
    assert!(starts_with("größe", ""));
    assert!(same_text("größe", "größe"));
    assert!(!same_text("größe", "grösse"));
}

#[test]
fn line_breaks_become_the_separator() {
    assert_eq!(join_lines("a\nb\n\nc", " | "), "a | b |  | c");
    assert_eq!(join_lines("plain", " | "), "plain");
    assert_eq!(join_lines("", " | "), "");
}

#[test]
fn spans_convert_exactly() {
    assert_eq!(Duration::from_micros(3).nanos, 3_000);
    assert_eq!(Duration::from_millis(75).nanos, 75_000_000);
    assert_eq!(Duration::from_secs(2).as_millis(), 2_000);
    assert_eq!(Duration { nanos: 1_999_999 }.as_millis(), 1);
    assert_eq!(Duration { nanos: 1_999_999 }.as_micros(), 1_999);
}

#[test]
fn instants_neither_wrap_nor_go_back() {
    let early = Instant { nanos: 10 };
    let late = Instant { nanos: 25 };
    assert_eq!(late.saturating_duration_since(early), Duration { nanos: 15 });
    assert_eq!(early.saturating_duration_since(late), Duration { nanos: 0 });
    assert_eq!(early.checked_add(Duration { nanos: 15 }), Some(late));
    assert_eq!(late.checked_add(Duration { nanos: u128::MAX }), None);
}
