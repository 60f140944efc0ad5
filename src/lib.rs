//! An owning adapter over serde_json's parser.
//!
//! `serde_json` implements `serde::Deserializer` only for `&mut Deserializer<R>`.
//! [`OwnedJsonDeserializer`] holds the JSON text by value, so that a deserializer can be
//! handed over and consumed by the one call that reads from it. The text is either a
//! `&'static str`, read in place, or an owned `String`, read through a cursor over its bytes.

use vstd::prelude::*;

verus! {

#[verifier::external_type_specification]
#[verifier::external_body]
pub struct ExError(serde_json::Error);

#[verifier::external_type_specification]
pub struct ExCategory(serde_json::error::Category);

/// An error of the JSON parser, as plain values.
#[derive(Debug)]
pub struct JsonError {
    /// The error as the parser displays it, position included.
    pub message: String,
    /// The line of the input at which the parser stopped, from 1.
    pub line: usize,
    /// The column at which the parser stopped, from 1 (0 before the first character).
    pub column: usize,
    /// What kind of failure it was: I/O, syntax, data or end of input.
    pub category: serde_json::error::Category,
}

/// An error of the parser as values: message, line, column and category.
pub type ErrorParts = (Seq<char>, usize, usize, serde_json::error::Category);

impl JsonError {
    pub open spec fn parts(self) -> ErrorParts {
        (self.message@, self.line, self.column, self.category)
    }
}

/// The outcome of a read, its error taken as values.
pub open spec fn outcome<T>(r: Result<T, JsonError>) -> Result<T, ErrorParts> {
    match r {
        Ok(v) => Ok(v),
        Err(e) => Err(e.parts()),
    }
}

/// The outcome of a string read, its value and error taken as values.
pub open spec fn string_outcome(r: Result<String, JsonError>) -> Result<Seq<char>, ErrorParts> {
    match r {
        Ok(v) => Ok(v@),
        Err(e) => Err(e.parts()),
    }
}


/// What serde_json's parser gives when it reads a boolean from the start of `text`:
/// the value, or the error it reports there.
pub uninterp spec fn json_bool(text: Seq<char>) -> Result<bool, ErrorParts>;

/// What serde_json's parser over a reader gives when it reads a boolean from a cursor over
/// the bytes of `text`: the value, or the error it reports there.
pub uninterp spec fn json_bool_read(text: Seq<char>) -> Result<bool, ErrorParts>;

/// What serde_json's parser gives when it reads an 8-bit signed integer from the start of `text`:
/// the value, or the error it reports there.
pub uninterp spec fn json_i8(text: Seq<char>) -> Result<i8, ErrorParts>;

/// What serde_json's parser over a reader gives when it reads an 8-bit signed integer from a cursor over
/// the bytes of `text`: the value, or the error it reports there.
pub uninterp spec fn json_i8_read(text: Seq<char>) -> Result<i8, ErrorParts>;

/// What serde_json's parser gives when it reads a 16-bit signed integer from the start of `text`:
/// the value, or the error it reports there.
pub uninterp spec fn json_i16(text: Seq<char>) -> Result<i16, ErrorParts>;

/// What serde_json's parser over a reader gives when it reads a 16-bit signed integer from a cursor over
/// the bytes of `text`: the value, or the error it reports there.
pub uninterp spec fn json_i16_read(text: Seq<char>) -> Result<i16, ErrorParts>;

/// What serde_json's parser gives when it reads a 32-bit signed integer from the start of `text`:
/// the value, or the error it reports there.
pub uninterp spec fn json_i32(text: Seq<char>) -> Result<i32, ErrorParts>;

/// What serde_json's parser over a reader gives when it reads a 32-bit signed integer from a cursor over
/// the bytes of `text`: the value, or the error it reports there.
pub uninterp spec fn json_i32_read(text: Seq<char>) -> Result<i32, ErrorParts>;

/// What serde_json's parser gives when it reads a 64-bit signed integer from the start of `text`:
/// the value, or the error it reports there.
pub uninterp spec fn json_i64(text: Seq<char>) -> Result<i64, ErrorParts>;

/// What serde_json's parser over a reader gives when it reads a 64-bit signed integer from a cursor over
/// the bytes of `text`: the value, or the error it reports there.
pub uninterp spec fn json_i64_read(text: Seq<char>) -> Result<i64, ErrorParts>;

/// What serde_json's parser gives when it reads an 8-bit unsigned integer from the start of `text`:
/// the value, or the error it reports there.
pub uninterp spec fn json_u8(text: Seq<char>) -> Result<u8, ErrorParts>;

/// What serde_json's parser over a reader gives when it reads an 8-bit unsigned integer from a cursor over
/// the bytes of `text`: the value, or the error it reports there.
pub uninterp spec fn json_u8_read(text: Seq<char>) -> Result<u8, ErrorParts>;

/// What serde_json's parser gives when it reads a 16-bit unsigned integer from the start of `text`:
/// the value, or the error it reports there.
pub uninterp spec fn json_u16(text: Seq<char>) -> Result<u16, ErrorParts>;

/// What serde_json's parser over a reader gives when it reads a 16-bit unsigned integer from a cursor over
/// the bytes of `text`: the value, or the error it reports there.
pub uninterp spec fn json_u16_read(text: Seq<char>) -> Result<u16, ErrorParts>;

/// What serde_json's parser gives when it reads a 32-bit unsigned integer from the start of `text`:
/// the value, or the error it reports there.
pub uninterp spec fn json_u32(text: Seq<char>) -> Result<u32, ErrorParts>;

/// What serde_json's parser over a reader gives when it reads a 32-bit unsigned integer from a cursor over
/// the bytes of `text`: the value, or the error it reports there.
pub uninterp spec fn json_u32_read(text: Seq<char>) -> Result<u32, ErrorParts>;

/// What serde_json's parser gives when it reads a 64-bit unsigned integer from the start of `text`:
/// the value, or the error it reports there.
pub uninterp spec fn json_u64(text: Seq<char>) -> Result<u64, ErrorParts>;

/// What serde_json's parser over a reader gives when it reads a 64-bit unsigned integer from a cursor over
/// the bytes of `text`: the value, or the error it reports there.
pub uninterp spec fn json_u64_read(text: Seq<char>) -> Result<u64, ErrorParts>;

/// What serde_json's parser gives when it reads an owned string from the start of `text`:
/// the value, or the error it reports there.
pub uninterp spec fn json_string(text: Seq<char>) -> Result<Seq<char>, ErrorParts>;

/// What serde_json's parser over a reader gives when it reads an owned string from a cursor over
/// the bytes of `text`: the value, or the error it reports there.
pub uninterp spec fn json_string_read(text: Seq<char>) -> Result<Seq<char>, ErrorParts>;

/// A JSON whitespace character: space, line feed, carriage return or tab.
pub open spec fn is_json_space(c: char) -> bool {
    c == ' ' || c == '\n' || c == '\r' || c == '\t'
}

/// Text made of JSON whitespace alone; the empty text among it.
pub open spec fn all_space(text: Seq<char>) -> bool {
    forall|i: int| 0 <= i < text.len() ==> is_json_space(#[trigger] text[i])
}

/// The decimal digit for `d`, below ten.
pub open spec fn digit(d: nat) -> char {
    ((d + 48) as u8) as char
}

/// The decimal numeral of `n`, without leading zeros.
pub open spec fn decimal(n: nat) -> Seq<char>
    decreases n,
{
    if n < 10 {
        seq![digit(n)]
    } else {
        decimal(n / 10).push(digit(n % 10))
    }
}

/// A failed read whose error has the given category.
pub open spec fn fails_with<T>(r: Result<T, ErrorParts>, c: serde_json::error::Category) -> bool {
    r is Err && r->Err_0.3 == c
}

/// The outcome of an integer read, its value as an `int`.
pub open spec fn as_int<T: Integer>(r: Result<T, ErrorParts>) -> Result<int, ErrorParts> {
    match r {
        Ok(v) => Ok(v as int),
        Err(e) => Err(e),
    }
}

/// What the parser does, whatever reads it, with an integer type whose range is `lo..=hi`:
/// text of whitespace alone ends early; a numeral `n`, or `-n` with `1 <= n <= 2^63`,
/// reads as its value where it is in range, and fails as data where it is not.
pub open spec fn integer_law(text: Seq<char>, lo: int, hi: int, r: Result<int, ErrorParts>) -> bool {
    &&& all_space(text) ==> fails_with(r, serde_json::error::Category::Eof)
    &&& forall|n: nat| #![trigger decimal(n)] text == decimal(n) && n <= u64::MAX ==> {
        if n <= hi { r == Ok::<int, ErrorParts>(n as int) } else { fails_with(r, serde_json::error::Category::Data) }
    }
    &&& forall|n: nat| #![trigger decimal(n)] text == seq!['-'] + decimal(n) && 1 <= n <= 0x8000_0000_0000_0000 ==> {
        if lo <= -n { r == Ok::<int, ErrorParts>(-n) } else { fails_with(r, serde_json::error::Category::Data) }
    }
}

/// A character that may stand unescaped inside a JSON string.
pub open spec fn is_plain_char(c: char) -> bool {
    c != '"' && c != '\\' && c >= ' '
}

/// What the parser does, whatever reads it, on a boolean read: text of whitespace alone
/// ends early, and `true` and `false` read as themselves.
pub open spec fn bool_law(text: Seq<char>, r: Result<bool, ErrorParts>) -> bool {
    &&& all_space(text) ==> fails_with(r, serde_json::error::Category::Eof)
    &&& text == seq!['t', 'r', 'u', 'e'] ==> r == Ok::<bool, ErrorParts>(true)
    &&& text == seq!['f', 'a', 'l', 's', 'e'] ==> r == Ok::<bool, ErrorParts>(false)
}

/// What the parser does, whatever reads it, on a string read: text of whitespace alone
/// ends early, and plain characters between quotes read as themselves.
pub open spec fn string_law(text: Seq<char>, r: Result<Seq<char>, ErrorParts>) -> bool {
    &&& all_space(text) ==> fails_with(r, serde_json::error::Category::Eof)
    &&& forall|t: Seq<char>| #![trigger seq!['"'] + t + seq!['"']]
        text == seq!['"'] + t + seq!['"'] && (forall|i: int| 0 <= i < t.len() ==> is_plain_char(#[trigger] t[i]))
            ==> r == Ok::<Seq<char>, ErrorParts>(t)
}


/// A JSON deserializer that owns the text it reads.
#[derive(Debug)]
pub struct OwnedJsonDeserializer<T>(pub T);


impl OwnedJsonDeserializer<&'static str> {
    /// Creates an owned JSON deserializer that reads `s` in place.
    pub fn from_str(s: &'static str) -> (r: Self)
        ensures
            r.0 == s,
    {
        OwnedJsonDeserializer(s)
    }


    /// Consumes the deserializer and reads a boolean, as `bool`'s `Deserialize` impl does.
    pub fn deserialize_bool(self) -> (r: Result<bool, JsonError>)
        ensures
            outcome(r) == json_bool(self.0@),
            bool_law(self.0@, outcome(r)),
    {
        read_bool_str(self.0)
    }


    /// Consumes the deserializer and reads an 8-bit signed integer, as `i8`'s `Deserialize` impl does.
    pub fn deserialize_i8(self) -> (r: Result<i8, JsonError>)
        ensures
            outcome(r) == json_i8(self.0@),
            integer_law(self.0@, -0x80, 0x7f, as_int(outcome(r))),
    {
        read_i8_str(self.0)
    }


    /// Consumes the deserializer and reads a 16-bit signed integer, as `i16`'s `Deserialize` impl does.
    pub fn deserialize_i16(self) -> (r: Result<i16, JsonError>)
        ensures
            outcome(r) == json_i16(self.0@),
            integer_law(self.0@, -0x8000, 0x7fff, as_int(outcome(r))),
    {
        read_i16_str(self.0)
    }


    /// Consumes the deserializer and reads a 32-bit signed integer, as `i32`'s `Deserialize` impl does.
    pub fn deserialize_i32(self) -> (r: Result<i32, JsonError>)
        ensures
            outcome(r) == json_i32(self.0@),
            integer_law(self.0@, -0x8000_0000, 0x7fff_ffff, as_int(outcome(r))),
    {
        read_i32_str(self.0)
    }


    /// Consumes the deserializer and reads a 64-bit signed integer, as `i64`'s `Deserialize` impl does.
    pub fn deserialize_i64(self) -> (r: Result<i64, JsonError>)
        ensures
            outcome(r) == json_i64(self.0@),
            integer_law(self.0@, -0x8000_0000_0000_0000, 0x7fff_ffff_ffff_ffff, as_int(outcome(r))),
    {
        read_i64_str(self.0)
    }


    /// Consumes the deserializer and reads an 8-bit unsigned integer, as `u8`'s `Deserialize` impl does.
    pub fn deserialize_u8(self) -> (r: Result<u8, JsonError>)
        ensures
            outcome(r) == json_u8(self.0@),
            integer_law(self.0@, 0, 0xff, as_int(outcome(r))),
    {
        read_u8_str(self.0)
    }


    /// Consumes the deserializer and reads a 16-bit unsigned integer, as `u16`'s `Deserialize` impl does.
    pub fn deserialize_u16(self) -> (r: Result<u16, JsonError>)
        ensures
            outcome(r) == json_u16(self.0@),
            integer_law(self.0@, 0, 0xffff, as_int(outcome(r))),
    {
        read_u16_str(self.0)
    }


    /// Consumes the deserializer and reads a 32-bit unsigned integer, as `u32`'s `Deserialize` impl does.
    pub fn deserialize_u32(self) -> (r: Result<u32, JsonError>)
        ensures
            outcome(r) == json_u32(self.0@),
            integer_law(self.0@, 0, 0xffff_ffff, as_int(outcome(r))),
    {
        read_u32_str(self.0)
    }


    /// Consumes the deserializer and reads a 64-bit unsigned integer, as `u64`'s `Deserialize` impl does.
    pub fn deserialize_u64(self) -> (r: Result<u64, JsonError>)
        ensures
            outcome(r) == json_u64(self.0@),
            integer_law(self.0@, 0, 0xffff_ffff_ffff_ffff, as_int(outcome(r))),
    {
        read_u64_str(self.0)
    }


    /// Consumes the deserializer and reads an owned string, as `String`'s `Deserialize` impl does.
    pub fn deserialize_string(self) -> (r: Result<String, JsonError>)
        ensures
            string_outcome(r) == json_string(self.0@),
            string_law(self.0@, string_outcome(r)),
    {
        read_string_str(self.0)
    }

}

impl OwnedJsonDeserializer<String> {
    /// Creates an owned JSON deserializer that reads the bytes of `s` through a cursor.
    pub fn from_string(s: String) -> (r: Self)
        ensures
            r.0@ == s@,
    {
        OwnedJsonDeserializer(s)
    }


    /// Consumes the deserializer and reads a boolean, as `bool`'s `Deserialize` impl does.
    pub fn deserialize_bool(self) -> (r: Result<bool, JsonError>)
        ensures
            outcome(r) == json_bool_read(self.0@),
            bool_law(self.0@, outcome(r)),
    {
        read_bool_owned(self.0)
    }


    /// Consumes the deserializer and reads an 8-bit signed integer, as `i8`'s `Deserialize` impl does.
    pub fn deserialize_i8(self) -> (r: Result<i8, JsonError>)
        ensures
            outcome(r) == json_i8_read(self.0@),
            integer_law(self.0@, -0x80, 0x7f, as_int(outcome(r))),
    {
        read_i8_owned(self.0)
    }


    /// Consumes the deserializer and reads a 16-bit signed integer, as `i16`'s `Deserialize` impl does.
    pub fn deserialize_i16(self) -> (r: Result<i16, JsonError>)
        ensures
            outcome(r) == json_i16_read(self.0@),
            integer_law(self.0@, -0x8000, 0x7fff, as_int(outcome(r))),
    {
        read_i16_owned(self.0)
    }


    /// Consumes the deserializer and reads a 32-bit signed integer, as `i32`'s `Deserialize` impl does.
    pub fn deserialize_i32(self) -> (r: Result<i32, JsonError>)
        ensures
            outcome(r) == json_i32_read(self.0@),
            integer_law(self.0@, -0x8000_0000, 0x7fff_ffff, as_int(outcome(r))),
    {
        read_i32_owned(self.0)
    }


    /// Consumes the deserializer and reads a 64-bit signed integer, as `i64`'s `Deserialize` impl does.
    pub fn deserialize_i64(self) -> (r: Result<i64, JsonError>)
        ensures
            outcome(r) == json_i64_read(self.0@),
            integer_law(self.0@, -0x8000_0000_0000_0000, 0x7fff_ffff_ffff_ffff, as_int(outcome(r))),
    {
        read_i64_owned(self.0)
    }


    /// Consumes the deserializer and reads an 8-bit unsigned integer, as `u8`'s `Deserialize` impl does.
    pub fn deserialize_u8(self) -> (r: Result<u8, JsonError>)
        ensures
            outcome(r) == json_u8_read(self.0@),
            integer_law(self.0@, 0, 0xff, as_int(outcome(r))),
    {
        read_u8_owned(self.0)
    }


    /// Consumes the deserializer and reads a 16-bit unsigned integer, as `u16`'s `Deserialize` impl does.
    pub fn deserialize_u16(self) -> (r: Result<u16, JsonError>)
        ensures
            outcome(r) == json_u16_read(self.0@),
            integer_law(self.0@, 0, 0xffff, as_int(outcome(r))),
    {
        read_u16_owned(self.0)
    }


    /// Consumes the deserializer and reads a 32-bit unsigned integer, as `u32`'s `Deserialize` impl does.
    pub fn deserialize_u32(self) -> (r: Result<u32, JsonError>)
        ensures
            outcome(r) == json_u32_read(self.0@),
            integer_law(self.0@, 0, 0xffff_ffff, as_int(outcome(r))),
    {
        read_u32_owned(self.0)
    }


    /// Consumes the deserializer and reads a 64-bit unsigned integer, as `u64`'s `Deserialize` impl does.
    pub fn deserialize_u64(self) -> (r: Result<u64, JsonError>)
        ensures
            outcome(r) == json_u64_read(self.0@),
            integer_law(self.0@, 0, 0xffff_ffff_ffff_ffff, as_int(outcome(r))),
    {
        read_u64_owned(self.0)
    }


    /// Consumes the deserializer and reads an owned string, as `String`'s `Deserialize` impl does.
    pub fn deserialize_string(self) -> (r: Result<String, JsonError>)
        ensures
            string_outcome(r) == json_string_read(self.0@),
            string_law(self.0@, string_outcome(r)),
    {
        read_string_owned(self.0)
    }

}

/// Relies on `<bool as serde::Deserialize>::deserialize` over serde_json's `Deserializer::from_str`:
/// the value or error depends on the text alone. The error's parts come from its `Display`,
/// `line`, `column` and `classify`.
#[verifier::external_body]
fn read_bool_str(s: &'static str) -> (r: Result<bool, JsonError>)
    ensures
        outcome(r) == json_bool(s@),
        bool_law(s@, outcome(r)),
{
    let mut d = serde_json::Deserializer::from_str(s);
    <bool as serde::Deserialize>::deserialize(&mut d).map_err(|e| JsonError {
        message: e.to_string(), line: e.line(), column: e.column(), category: e.classify(),
    })
}

/// Relies on `<bool as serde::Deserialize>::deserialize` over serde_json's `Deserializer::from_reader`
/// on a cursor over the bytes of `s`: the value or error depends on the text alone. The
/// error's parts come from its `Display`, `line`, `column` and `classify`.
#[verifier::external_body]
fn read_bool_owned(s: String) -> (r: Result<bool, JsonError>)
    ensures
        outcome(r) == json_bool_read(s@),
        bool_law(s@, outcome(r)),
{
    let mut d = serde_json::Deserializer::from_reader(std::io::Cursor::new(s.into_bytes()));
    <bool as serde::Deserialize>::deserialize(&mut d).map_err(|e| JsonError {
        message: e.to_string(), line: e.line(), column: e.column(), category: e.classify(),
    })
}

/// Relies on `<i8 as serde::Deserialize>::deserialize` over serde_json's `Deserializer::from_str`:
/// the value or error depends on the text alone. The error's parts come from its `Display`,
/// `line`, `column` and `classify`.
#[verifier::external_body]
fn read_i8_str(s: &'static str) -> (r: Result<i8, JsonError>)
    ensures
        outcome(r) == json_i8(s@),
        integer_law(s@, -0x80, 0x7f, as_int(outcome(r))),
{
    let mut d = serde_json::Deserializer::from_str(s);
    <i8 as serde::Deserialize>::deserialize(&mut d).map_err(|e| JsonError {
        message: e.to_string(), line: e.line(), column: e.column(), category: e.classify(),
    })
}

/// Relies on `<i8 as serde::Deserialize>::deserialize` over serde_json's `Deserializer::from_reader`
/// on a cursor over the bytes of `s`: the value or error depends on the text alone. The
/// error's parts come from its `Display`, `line`, `column` and `classify`.
#[verifier::external_body]
fn read_i8_owned(s: String) -> (r: Result<i8, JsonError>)
    ensures
        outcome(r) == json_i8_read(s@),
        integer_law(s@, -0x80, 0x7f, as_int(outcome(r))),
{
    let mut d = serde_json::Deserializer::from_reader(std::io::Cursor::new(s.into_bytes()));
    <i8 as serde::Deserialize>::deserialize(&mut d).map_err(|e| JsonError {
        message: e.to_string(), line: e.line(), column: e.column(), category: e.classify(),
    })
}

/// Relies on `<i16 as serde::Deserialize>::deserialize` over serde_json's `Deserializer::from_str`:
/// the value or error depends on the text alone. The error's parts come from its `Display`,
/// `line`, `column` and `classify`.
#[verifier::external_body]
fn read_i16_str(s: &'static str) -> (r: Result<i16, JsonError>)
    ensures
        outcome(r) == json_i16(s@),
        integer_law(s@, -0x8000, 0x7fff, as_int(outcome(r))),
{
    let mut d = serde_json::Deserializer::from_str(s);
    <i16 as serde::Deserialize>::deserialize(&mut d).map_err(|e| JsonError {
        message: e.to_string(), line: e.line(), column: e.column(), category: e.classify(),
    })
}

/// Relies on `<i16 as serde::Deserialize>::deserialize` over serde_json's `Deserializer::from_reader`
/// on a cursor over the bytes of `s`: the value or error depends on the text alone. The
/// error's parts come from its `Display`, `line`, `column` and `classify`.
#[verifier::external_body]
fn read_i16_owned(s: String) -> (r: Result<i16, JsonError>)
    ensures
        outcome(r) == json_i16_read(s@),
        integer_law(s@, -0x8000, 0x7fff, as_int(outcome(r))),
{
    let mut d = serde_json::Deserializer::from_reader(std::io::Cursor::new(s.into_bytes()));
    <i16 as serde::Deserialize>::deserialize(&mut d).map_err(|e| JsonError {
        message: e.to_string(), line: e.line(), column: e.column(), category: e.classify(),
    })
}

/// Relies on `<i32 as serde::Deserialize>::deserialize` over serde_json's `Deserializer::from_str`:
/// the value or error depends on the text alone. The error's parts come from its `Display`,
/// `line`, `column` and `classify`.
#[verifier::external_body]
fn read_i32_str(s: &'static str) -> (r: Result<i32, JsonError>)
    ensures
        outcome(r) == json_i32(s@),
        integer_law(s@, -0x8000_0000, 0x7fff_ffff, as_int(outcome(r))),
{
    let mut d = serde_json::Deserializer::from_str(s);
    <i32 as serde::Deserialize>::deserialize(&mut d).map_err(|e| JsonError {
        message: e.to_string(), line: e.line(), column: e.column(), category: e.classify(),
    })
}

/// Relies on `<i32 as serde::Deserialize>::deserialize` over serde_json's `Deserializer::from_reader`
/// on a cursor over the bytes of `s`: the value or error depends on the text alone. The
/// error's parts come from its `Display`, `line`, `column` and `classify`.
#[verifier::external_body]
fn read_i32_owned(s: String) -> (r: Result<i32, JsonError>)
    ensures
        outcome(r) == json_i32_read(s@),
        integer_law(s@, -0x8000_0000, 0x7fff_ffff, as_int(outcome(r))),
{
    let mut d = serde_json::Deserializer::from_reader(std::io::Cursor::new(s.into_bytes()));
    <i32 as serde::Deserialize>::deserialize(&mut d).map_err(|e| JsonError {
        message: e.to_string(), line: e.line(), column: e.column(), category: e.classify(),
    })
}

/// Relies on `<i64 as serde::Deserialize>::deserialize` over serde_json's `Deserializer::from_str`:
/// the value or error depends on the text alone. The error's parts come from its `Display`,
/// `line`, `column` and `classify`.
#[verifier::external_body]
fn read_i64_str(s: &'static str) -> (r: Result<i64, JsonError>)
    ensures
        outcome(r) == json_i64(s@),
        integer_law(s@, -0x8000_0000_0000_0000, 0x7fff_ffff_ffff_ffff, as_int(outcome(r))),
{
    let mut d = serde_json::Deserializer::from_str(s);
    <i64 as serde::Deserialize>::deserialize(&mut d).map_err(|e| JsonError {
        message: e.to_string(), line: e.line(), column: e.column(), category: e.classify(),
    })
}

/// Relies on `<i64 as serde::Deserialize>::deserialize` over serde_json's `Deserializer::from_reader`
/// on a cursor over the bytes of `s`: the value or error depends on the text alone. The
/// error's parts come from its `Display`, `line`, `column` and `classify`.
#[verifier::external_body]
fn read_i64_owned(s: String) -> (r: Result<i64, JsonError>)
    ensures
        outcome(r) == json_i64_read(s@),
        integer_law(s@, -0x8000_0000_0000_0000, 0x7fff_ffff_ffff_ffff, as_int(outcome(r))),
{
    let mut d = serde_json::Deserializer::from_reader(std::io::Cursor::new(s.into_bytes()));
    <i64 as serde::Deserialize>::deserialize(&mut d).map_err(|e| JsonError {
        message: e.to_string(), line: e.line(), column: e.column(), category: e.classify(),
    })
}

/// Relies on `<u8 as serde::Deserialize>::deserialize` over serde_json's `Deserializer::from_str`:
/// the value or error depends on the text alone. The error's parts come from its `Display`,
/// `line`, `column` and `classify`.
#[verifier::external_body]
fn read_u8_str(s: &'static str) -> (r: Result<u8, JsonError>)
    ensures
        outcome(r) == json_u8(s@),
        integer_law(s@, 0, 0xff, as_int(outcome(r))),
{
    let mut d = serde_json::Deserializer::from_str(s);
    <u8 as serde::Deserialize>::deserialize(&mut d).map_err(|e| JsonError {
        message: e.to_string(), line: e.line(), column: e.column(), category: e.classify(),
    })
}

/// Relies on `<u8 as serde::Deserialize>::deserialize` over serde_json's `Deserializer::from_reader`
/// on a cursor over the bytes of `s`: the value or error depends on the text alone. The
/// error's parts come from its `Display`, `line`, `column` and `classify`.
#[verifier::external_body]
fn read_u8_owned(s: String) -> (r: Result<u8, JsonError>)
    ensures
        outcome(r) == json_u8_read(s@),
        integer_law(s@, 0, 0xff, as_int(outcome(r))),
{
    let mut d = serde_json::Deserializer::from_reader(std::io::Cursor::new(s.into_bytes()));
    <u8 as serde::Deserialize>::deserialize(&mut d).map_err(|e| JsonError {
        message: e.to_string(), line: e.line(), column: e.column(), category: e.classify(),
    })
}

/// Relies on `<u16 as serde::Deserialize>::deserialize` over serde_json's `Deserializer::from_str`:
/// the value or error depends on the text alone. The error's parts come from its `Display`,
/// `line`, `column` and `classify`.
#[verifier::external_body]
fn read_u16_str(s: &'static str) -> (r: Result<u16, JsonError>)
    ensures
        outcome(r) == json_u16(s@),
        integer_law(s@, 0, 0xffff, as_int(outcome(r))),
{
    let mut d = serde_json::Deserializer::from_str(s);
    <u16 as serde::Deserialize>::deserialize(&mut d).map_err(|e| JsonError {
        message: e.to_string(), line: e.line(), column: e.column(), category: e.classify(),
    })
}

/// Relies on `<u16 as serde::Deserialize>::deserialize` over serde_json's `Deserializer::from_reader`
/// on a cursor over the bytes of `s`: the value or error depends on the text alone. The
/// error's parts come from its `Display`, `line`, `column` and `classify`.
#[verifier::external_body]
fn read_u16_owned(s: String) -> (r: Result<u16, JsonError>)
    ensures
        outcome(r) == json_u16_read(s@),
        integer_law(s@, 0, 0xffff, as_int(outcome(r))),
{
    let mut d = serde_json::Deserializer::from_reader(std::io::Cursor::new(s.into_bytes()));
    <u16 as serde::Deserialize>::deserialize(&mut d).map_err(|e| JsonError {
        message: e.to_string(), line: e.line(), column: e.column(), category: e.classify(),
    })
}

/// Relies on `<u32 as serde::Deserialize>::deserialize` over serde_json's `Deserializer::from_str`:
/// the value or error depends on the text alone. The error's parts come from its `Display`,
/// `line`, `column` and `classify`.
#[verifier::external_body]
fn read_u32_str(s: &'static str) -> (r: Result<u32, JsonError>)
    ensures
        outcome(r) == json_u32(s@),
        integer_law(s@, 0, 0xffff_ffff, as_int(outcome(r))),
{
    let mut d = serde_json::Deserializer::from_str(s);
    <u32 as serde::Deserialize>::deserialize(&mut d).map_err(|e| JsonError {
        message: e.to_string(), line: e.line(), column: e.column(), category: e.classify(),
    })
}

/// Relies on `<u32 as serde::Deserialize>::deserialize` over serde_json's `Deserializer::from_reader`
/// on a cursor over the bytes of `s`: the value or error depends on the text alone. The
/// error's parts come from its `Display`, `line`, `column` and `classify`.
#[verifier::external_body]
fn read_u32_owned(s: String) -> (r: Result<u32, JsonError>)
    ensures
        outcome(r) == json_u32_read(s@),
        integer_law(s@, 0, 0xffff_ffff, as_int(outcome(r))),
{
    let mut d = serde_json::Deserializer::from_reader(std::io::Cursor::new(s.into_bytes()));
    <u32 as serde::Deserialize>::deserialize(&mut d).map_err(|e| JsonError {
        message: e.to_string(), line: e.line(), column: e.column(), category: e.classify(),
    })
}

/// Relies on `<u64 as serde::Deserialize>::deserialize` over serde_json's `Deserializer::from_str`:
/// the value or error depends on the text alone. The error's parts come from its `Display`,
/// `line`, `column` and `classify`.
#[verifier::external_body]
fn read_u64_str(s: &'static str) -> (r: Result<u64, JsonError>)
    ensures
        outcome(r) == json_u64(s@),
        integer_law(s@, 0, 0xffff_ffff_ffff_ffff, as_int(outcome(r))),
{
    let mut d = serde_json::Deserializer::from_str(s);
    <u64 as serde::Deserialize>::deserialize(&mut d).map_err(|e| JsonError {
        message: e.to_string(), line: e.line(), column: e.column(), category: e.classify(),
    })
}

/// Relies on `<u64 as serde::Deserialize>::deserialize` over serde_json's `Deserializer::from_reader`
/// on a cursor over the bytes of `s`: the value or error depends on the text alone. The
/// error's parts come from its `Display`, `line`, `column` and `classify`.
#[verifier::external_body]
fn read_u64_owned(s: String) -> (r: Result<u64, JsonError>)
    ensures
        outcome(r) == json_u64_read(s@),
        integer_law(s@, 0, 0xffff_ffff_ffff_ffff, as_int(outcome(r))),
{
    let mut d = serde_json::Deserializer::from_reader(std::io::Cursor::new(s.into_bytes()));
    <u64 as serde::Deserialize>::deserialize(&mut d).map_err(|e| JsonError {
        message: e.to_string(), line: e.line(), column: e.column(), category: e.classify(),
    })
}

/// Relies on `<String as serde::Deserialize>::deserialize` over serde_json's `Deserializer::from_str`:
/// the value or error depends on the text alone. The error's parts come from its `Display`,
/// `line`, `column` and `classify`.
#[verifier::external_body]
fn read_string_str(s: &'static str) -> (r: Result<String, JsonError>)
    ensures
        string_outcome(r) == json_string(s@),
        string_law(s@, string_outcome(r)),
{
    let mut d = serde_json::Deserializer::from_str(s);
    <String as serde::Deserialize>::deserialize(&mut d).map_err(|e| JsonError {
        message: e.to_string(), line: e.line(), column: e.column(), category: e.classify(),
    })
}

/// Relies on `<String as serde::Deserialize>::deserialize` over serde_json's `Deserializer::from_reader`
/// on a cursor over the bytes of `s`: the value or error depends on the text alone. The
/// error's parts come from its `Display`, `line`, `column` and `classify`.
#[verifier::external_body]
fn read_string_owned(s: String) -> (r: Result<String, JsonError>)
    ensures
        string_outcome(r) == json_string_read(s@),
        string_law(s@, string_outcome(r)),
{
    let mut d = serde_json::Deserializer::from_reader(std::io::Cursor::new(s.into_bytes()));
    <String as serde::Deserialize>::deserialize(&mut d).map_err(|e| JsonError {
        message: e.to_string(), line: e.line(), column: e.column(), category: e.classify(),
    })
}

} // verus!
