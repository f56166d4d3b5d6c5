use sql_show::text::{push_decimal, push_digits, push_string_literal};

fn decimal(n: i64) -> String {
    let mut out = String::new();
    push_decimal(&mut out, n);
    out
}

fn literal(s: &str) -> String {
    let mut out = String::new();
    push_string_literal(&mut out, s);
    out
}

#[test]
fn decimal_of_zero() {
    assert_eq!(decimal(0), "0");
}

#[test]
fn decimal_of_one_digit() {
    assert_eq!(decimal(7), "7");
    assert_eq!(decimal(9), "9");
}

#[test]
fn decimal_of_several_digits() {
    assert_eq!(decimal(10), "10");
    assert_eq!(decimal(1203), "1203");
    assert_eq!(decimal(9_876_543_210), "9876543210");
}

#[test]
fn decimal_of_negative_numbers() {
    assert_eq!(decimal(-1), "-1");
    assert_eq!(decimal(-120), "-120");
}

#[test]
fn decimal_of_the_bounds() {
    assert_eq!(decimal(i64::MAX), "9223372036854775807");
    assert_eq!(decimal(i64::MIN), "-9223372036854775808");
}

#[test]
fn decimal_agrees_with_std() {
    for n in [-1000i64, -99, -10, -9, 0, 5, 10, 11, 99, 100, 101, 65535, 4_294_967_296] {
        assert_eq!(decimal(n), n.to_string());
    }
}

#[test]
fn digits_of_the_largest_number() {
    let mut out = String::new();
    push_digits(&mut out, u64::MAX);
    assert_eq!(out, "18446744073709551615");
}

#[test]
fn decimal_is_appended() {
    let mut out = String::from("schema_id = ");
    push_decimal(&mut out, 42);
    assert_eq!(out, "schema_id = 42");
    push_digits(&mut out, 7);
    assert_eq!(out, "schema_id = 427");
}

#[test]
fn literal_of_plain_text() {
    assert_eq!(literal("user_%"), "'user_%'");
}

#[test]
fn literal_of_the_empty_string() {
    assert_eq!(literal(""), "''");
}

#[test]
fn literal_doubles_each_quote() {
    assert_eq!(literal("it's"), "'it''s'");
    assert_eq!(literal("'"), "''''");
    assert_eq!(literal("''"), "''''''");
    assert_eq!(literal("a'b'c"), "'a''b''c'");
}

#[test]
fn literal_leaves_other_characters_alone() {
    assert_eq!(literal("a\\b\"c"), "'a\\b\"c'");
    assert_eq!(literal("größe_%"), "'größe_%'");
}

#[test]
fn literal_is_appended() {
    let mut out = String::from("name LIKE ");
    push_string_literal(&mut out, "o'k");
    assert_eq!(out, "name LIKE 'o''k'");
}
