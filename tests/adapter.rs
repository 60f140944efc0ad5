use owned_json_deserializer::{JsonError, OwnedJsonDeserializer};
use serde::Deserialize;
use serde_json::error::Category;

fn direct_u8(s: &str) -> Result<u8, serde_json::Error> {
    u8::deserialize(&mut serde_json::Deserializer::from_str(s))
}

fn direct_u64(s: &str) -> Result<u64, serde_json::Error> {
    u64::deserialize(&mut serde_json::Deserializer::from_str(s))
}

fn direct_i64(s: &str) -> Result<i64, serde_json::Error> {
    i64::deserialize(&mut serde_json::Deserializer::from_str(s))
}

fn direct_string(s: &str) -> Result<String, serde_json::Error> {
    String::deserialize(&mut serde_json::Deserializer::from_str(s))
}

fn reader_u64(s: &str) -> Result<u64, serde_json::Error> {
    u64::deserialize(&mut serde_json::Deserializer::from_reader(std::io::Cursor::new(s.as_bytes().to_vec())))
}

fn reader_string(s: &str) -> Result<String, serde_json::Error> {
    String::deserialize(&mut serde_json::Deserializer::from_reader(std::io::Cursor::new(s.as_bytes().to_vec())))
}

fn same_error(e: &JsonError, d: &serde_json::Error) {
    assert_eq!(e.message, d.to_string());
    assert_eq!((e.line, e.column), (d.line(), d.column()));
    assert_eq!(e.category, d.classify());
}

#[test]
fn integer_from_owned_text() {
    let r = OwnedJsonDeserializer::from_string("42".to_string()).deserialize_u64();
    assert_eq!(r.unwrap(), 42);
}

#[test]
fn integer_from_static_text() {
    let r = OwnedJsonDeserializer::from_str("42").deserialize_u64();
    assert_eq!(r.unwrap(), 42);
}

#[test]
fn signed_integer_from_both_texts() {
    assert_eq!(OwnedJsonDeserializer::from_str("-17").deserialize_i64().unwrap(), -17);
    assert_eq!(OwnedJsonDeserializer::from_string("-17".to_string()).deserialize_i64().unwrap(), -17);
}

#[test]
fn string_from_static_text() {
    let r = OwnedJsonDeserializer::from_str("\"hello\"").deserialize_string();
    assert_eq!(r.unwrap(), "hello");
}

#[test]
fn string_from_owned_text() {
    let r = OwnedJsonDeserializer::from_string("\"a\\nb\"".to_string()).deserialize_string();
    assert_eq!(r.unwrap(), "a\nb");
}

#[test]
fn leading_whitespace_is_skipped() {
    let r = OwnedJsonDeserializer::from_str("  \n 7").deserialize_u8();
    assert_eq!(r.unwrap(), 7);
}

#[test]
fn largest_u8_is_read() {
    assert_eq!(OwnedJsonDeserializer::from_str("255").deserialize_u8().unwrap(), 255);
    assert_eq!(OwnedJsonDeserializer::from_string("255".to_string()).deserialize_u8().unwrap(), 255);
}

#[test]
fn empty_input_is_end_of_input() {
    let e = OwnedJsonDeserializer::from_str("").deserialize_u64().unwrap_err();
    assert_eq!(e.category, Category::Eof);
    assert_eq!(e.message, "EOF while parsing a value at line 1 column 0");
    let o = OwnedJsonDeserializer::from_string(String::new()).deserialize_u64().unwrap_err();
    assert_eq!(o.category, Category::Eof);
    assert_eq!(o.message, "EOF while parsing a value at line 1 column 0");
    let s = OwnedJsonDeserializer::from_string(String::new()).deserialize_string().unwrap_err();
    assert_eq!(s.category, Category::Eof);
}

#[test]
fn u8_out_of_range_matches_parser() {
    let d = direct_u8("256").unwrap_err();
    let e = OwnedJsonDeserializer::from_str("256").deserialize_u8().unwrap_err();
    same_error(&e, &d);
    let o = OwnedJsonDeserializer::from_string("256".to_string()).deserialize_u8().unwrap_err();
    same_error(&o, &d);
    assert_eq!(e.category, Category::Data);
    assert_eq!(e.message, "invalid value: integer `256`, expected u8 at line 1 column 3");
}

const MALFORMED: [&str; 9] = ["[1,", "tru", "\"open", "{\"a\" 1}", "01", "-", "1.", "\n\n  x", "\"\\q\""];

#[test]
fn malformed_text_gives_parser_error() {
    for text in MALFORMED {
        let d = direct_u64(text).unwrap_err();
        same_error(&OwnedJsonDeserializer::from_str(text).deserialize_u64().unwrap_err(), &d);
        let o = OwnedJsonDeserializer::from_string(text.to_string()).deserialize_u64().unwrap_err();
        same_error(&o, &reader_u64(text).unwrap_err());
        assert_eq!(o.category, d.classify());
    }
}

#[test]
fn malformed_string_gives_parser_error() {
    for text in MALFORMED {
        let d = direct_string(text).unwrap_err();
        same_error(&OwnedJsonDeserializer::from_str(text).deserialize_string().unwrap_err(), &d);
        let o = OwnedJsonDeserializer::from_string(text.to_string()).deserialize_string().unwrap_err();
        same_error(&o, &reader_string(text).unwrap_err());
        assert_eq!(o.category, d.classify());
    }
}

#[test]
fn wrong_type_gives_parser_error() {
    let d = direct_string("42").unwrap_err();
    let e = OwnedJsonDeserializer::from_str("42").deserialize_string().unwrap_err();
    same_error(&e, &d);
    assert_eq!(e.category, Category::Data);
}

#[test]
fn negative_number_is_not_unsigned() {
    let d = direct_u64("-1").unwrap_err();
    same_error(&OwnedJsonDeserializer::from_str("-1").deserialize_u64().unwrap_err(), &d);
    let r = reader_u64("-1").unwrap_err();
    same_error(&OwnedJsonDeserializer::from_string("-1".to_string()).deserialize_u64().unwrap_err(), &r);
    assert_eq!(d.classify(), Category::Data);
}

#[test]
fn i64_bounds_match_parser() {
    for text in ["9223372036854775807", "-9223372036854775808", "9223372036854775808", "-9223372036854775809"] {
        let a = OwnedJsonDeserializer::from_str(text).deserialize_i64();
        let b = OwnedJsonDeserializer::from_string(text.to_string()).deserialize_i64();
        match direct_i64(text) {
            Ok(v) => {
                assert_eq!(a.unwrap(), v);
                assert_eq!(b.unwrap(), v);
            }
            Err(d) => {
                same_error(&a.unwrap_err(), &d);
                same_error(&b.unwrap_err(), &d);
            }
        }
    }
    assert_eq!(direct_i64("-9223372036854775808").unwrap(), i64::MIN);
}

#[test]
fn values_agree_with_parser() {
    for text in ["0", "18446744073709551615", " 12 ", "3 4", "\r\n\t5"] {
        let r = OwnedJsonDeserializer::from_str(text).deserialize_u64().unwrap();
        assert_eq!(r, direct_u64(text).unwrap());
        let o = OwnedJsonDeserializer::from_string(text.to_string()).deserialize_u64().unwrap();
        assert_eq!(o, r);
    }
}

#[test]
fn constructors_keep_the_text() {
    assert_eq!(OwnedJsonDeserializer::from_str("[1]").0, "[1]");
    assert_eq!(OwnedJsonDeserializer::from_string("{}".to_string()).0, "{}");
}

#[test]
fn reader_reports_its_own_column() {
    let s = OwnedJsonDeserializer::from_str("[1,").deserialize_u64().unwrap_err();
    let o = OwnedJsonDeserializer::from_string("[1,".to_string()).deserialize_u64().unwrap_err();
    assert_eq!(s.category, o.category);
    assert_eq!((s.line, s.column), (1, 0));
    assert_eq!((o.line, o.column), (1, 1));
}

#[test]
fn booleans_from_both_texts() {
    assert!(OwnedJsonDeserializer::from_str("true").deserialize_bool().unwrap());
    assert!(!OwnedJsonDeserializer::from_string("false".to_string()).deserialize_bool().unwrap());
    let e = OwnedJsonDeserializer::from_str(" ").deserialize_bool().unwrap_err();
    assert_eq!(e.category, Category::Eof);
    let d = bool::deserialize(&mut serde_json::Deserializer::from_str("1")).unwrap_err();
    same_error(&OwnedJsonDeserializer::from_str("1").deserialize_bool().unwrap_err(), &d);
}

#[test]
fn narrow_integer_bounds() {
    assert_eq!(OwnedJsonDeserializer::from_str("-128").deserialize_i8().unwrap(), -128);
    assert_eq!(OwnedJsonDeserializer::from_str("127").deserialize_i8().unwrap(), 127);
    assert_eq!(OwnedJsonDeserializer::from_str("128").deserialize_i8().unwrap_err().category, Category::Data);
    assert_eq!(OwnedJsonDeserializer::from_str("-129").deserialize_i8().unwrap_err().category, Category::Data);
    assert_eq!(OwnedJsonDeserializer::from_str("-32768").deserialize_i16().unwrap(), i16::MIN);
    assert_eq!(OwnedJsonDeserializer::from_string("65535".to_string()).deserialize_u16().unwrap(), u16::MAX);
    assert_eq!(OwnedJsonDeserializer::from_str("65536").deserialize_u16().unwrap_err().category, Category::Data);
    assert_eq!(OwnedJsonDeserializer::from_str("-2147483648").deserialize_i32().unwrap(), i32::MIN);
    assert_eq!(OwnedJsonDeserializer::from_string("4294967295".to_string()).deserialize_u32().unwrap(), u32::MAX);
    assert_eq!(OwnedJsonDeserializer::from_str("-1").deserialize_u32().unwrap_err().category, Category::Data);
}
