//! Tests of the shared text helpers.

use sans_core::text::{decimal_text, parse_unsigned_exec};

#[test]
fn decimals_are_spelled_as_display_writes_them() {
    assert_eq!(decimal_text(0), "0");
    assert_eq!(decimal_text(7), "7");
    assert_eq!(decimal_text(10), "10");
    assert_eq!(decimal_text(3840), "3840");
    assert_eq!(decimal_text(u64::MAX), u64::MAX.to_string());
}

#[test]
fn unsigned_literals_parse_within_their_bound() {
    let chars = |s: &str| s.chars().collect::<Vec<char>>();
    assert_eq!(parse_unsigned_exec(&chars("910"), u64::MAX), Some(910));
    assert_eq!(parse_unsigned_exec(&chars("+12"), 255), Some(12));
    assert_eq!(parse_unsigned_exec(&chars("256"), 255), None);
    assert_eq!(parse_unsigned_exec(&chars(""), 255), None);
    assert_eq!(parse_unsigned_exec(&chars("1a"), 255), None);
}
