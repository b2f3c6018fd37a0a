use keste_persist::text::{
    push_blob_literal, push_integer_literal, push_quoted_name, push_text_literal,
};
use keste_persist::value::RealText;

fn name(text: &str) -> String {
    let mut out = String::new();
    push_quoted_name(&mut out, text);
    out
}

fn literal(text: &str) -> String {
    let mut out = String::new();
    push_text_literal(&mut out, text);
    out
}

fn blob(bytes: &[u8]) -> String {
    let mut out = String::new();
    push_blob_literal(&mut out, &bytes.to_vec());
    out
}

fn integer(value: i64) -> String {
    let mut out = String::new();
    push_integer_literal(&mut out, value);
    out
}

#[test]
fn names_stand_between_double_quotes() {
    assert_eq!(name("t"), "\"t\"");
    assert_eq!(name(""), "\"\"");
    assert_eq!(name("sheet 1"), "\"sheet 1\"");
    assert_eq!(name("a\"b"), "\"a\"\"b\"");
    assert_eq!(name("\"\""), "\"\"\"\"\"\"");
    assert_eq!(name("it's"), "\"it's\"");
    assert_eq!(name("größe"), "\"größe\"");
}

#[test]
fn quoting_appends_to_what_is_there() {
    let mut out = String::from("SELECT * FROM ");
    push_quoted_name(&mut out, "t");
    assert_eq!(out, "SELECT * FROM \"t\"");
    push_text_literal(&mut out, "x");
    push_integer_literal(&mut out, 7);
    push_blob_literal(&mut out, &vec![1u8]);
    assert_eq!(out, "SELECT * FROM \"t\"'x'7X'01'");
}

#[test]
fn texts_stand_between_single_quotes() {
    assert_eq!(literal(""), "''");
    assert_eq!(literal("abc"), "'abc'");
    assert_eq!(literal("it's"), "'it''s'");
    assert_eq!(literal("''"), "''''''");
    assert_eq!(literal("a\"b"), "'a\"b'");
    assert_eq!(literal("line\nbreak; DROP TABLE t; --"), "'line\nbreak; DROP TABLE t; --'");
    assert_eq!(literal("日本語 ✓"), "'日本語 ✓'");
}

#[test]
fn nul_characters_are_written_as_an_expression() {
    assert_eq!(literal("a\0b"), "'a'||char(0)||'b'");
    assert_eq!(literal("\0"), "''||char(0)||''");
    assert_eq!(literal("'\0'"), "''''||char(0)||''''");
}

#[test]
fn blobs_are_written_in_upper_case_hexadecimal() {
    assert_eq!(blob(&[]), "X''");
    assert_eq!(blob(&[0]), "X'00'");
    assert_eq!(blob(&[0x00, 0xff, 0x10]), "X'00FF10'");
    assert_eq!(blob(&[0x09, 0x0a, 0x9a, 0xa9, 0xbc, 0xde, 0xf0]), "X'090A9AA9BCDEF0'");
    assert_eq!(blob(&[0x12, 0x34, 0x56, 0x78]), "X'12345678'");
}

#[test]
fn integers_are_written_in_decimal() {
    assert_eq!(integer(0), "0");
    assert_eq!(integer(7), "7");
    assert_eq!(integer(10), "10");
    assert_eq!(integer(-1), "-1");
    assert_eq!(integer(-10), "-10");
    assert_eq!(integer(1234567890), "1234567890");
    assert_eq!(integer(i64::MAX), "9223372036854775807");
    assert_eq!(integer(i64::MIN), "-9223372036854775808");
    assert_eq!(integer(i64::MIN + 1), "-9223372036854775807");
}

#[test]
fn real_text_accepts_real_numbers() {
    for text in
        ["1.5", "-1.5", "0.0", "-0.0", "3.0", "1e300", "1E300", "2.5e-7", "2.5E+7", "9e999", "-9e999", "12345.678901", "1e0"]
    {
        let parsed = RealText::parse(text).unwrap_or_else(|| panic!("{} is a real number", text));
        assert_eq!(parsed.as_str(), text);
    }
}

#[test]
fn real_text_rejects_everything_else() {
    for text in [
        "", "-", ".", "1", "-1", "42", "1.", ".5", "-.5", "1.e5", "1e", "1e+", "1e-", "e5", "1.5.2",
        "1e5e5", "1.5e5.5", "+1.5", "--1.5", "1,5", "1.5 ", " 1.5", "1.5;", "inf", "NaN", "0x1p3",
        "1.5'", "1.5)", "١.٥", "1.5e٥", "1..5", "1e5-",
    ] {
        assert!(RealText::parse(text).is_none(), "{:?} is no real number", text);
    }
}
