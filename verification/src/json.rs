//! JSON, as `serde_json` reads and writes it.
//!
//! A JSON value is carried through this crate and never looked into. All that
//! is said of one here is the text that stands for it.
use serde_json::Value;
use vstd::prelude::*;

verus! {

/// `serde_json::Value`, carried and never looked into.
#[verifier::external_type_specification]
#[verifier::external_body]
pub struct ExValue(serde_json::Value);

/// What a JSON value holds, as the compact text that `serde_json::to_string`
/// writes for it.
pub uninterp spec fn json_content(value: serde_json::Value) -> Seq<char>;

/// What `serde_json::from_str` makes of a text: the content of the value it
/// reads, or the words of the error it reports.
pub uninterp spec fn json_decoded(text: Seq<char>) -> Result<Seq<char>, Seq<char>>;

/// The hexadecimal digit for a number below sixteen.
pub open spec fn hex_digit(n: int) -> char {
    "0123456789abcdef"@[n]
}

/// A character as it stands in a JSON string: the quote, the backslash and the
/// control characters below the space are escaped, by a letter of their own or
/// by their number, and all others stand for themselves.
pub open spec fn json_escaped(c: char) -> Seq<char> {
    if c == '"' || c == '\\' {
        seq!['\\', c]
    } else if c == '\u{8}' {
        seq!['\\', 'b']
    } else if c == '\t' {
        seq!['\\', 't']
    } else if c == '\n' {
        seq!['\\', 'n']
    } else if c == '\u{c}' {
        seq!['\\', 'f']
    } else if c == '\r' {
        seq!['\\', 'r']
    } else if c <= '\u{1f}' {
        let code = c as int;
        seq!['\\', 'u', '0', '0', hex_digit(code / 16), hex_digit(code % 16)]
    } else {
        seq![c]
    }
}

/// The characters of a text as they stand in a JSON string, one after the
/// other.
pub open spec fn json_escapes(text: Seq<char>) -> Seq<char>
    decreases text.len(),
{
    if text.len() == 0 {
        seq![]
    } else {
        json_escaped(text[0]) + json_escapes(text.skip(1))
    }
}

/// The JSON string that holds a text.
pub open spec fn json_quoted(text: Seq<char>) -> Seq<char> {
    seq!['"'] + json_escapes(text) + seq!['"']
}

/// `serde_json::from_str`: the value a text holds, or the error in words. Both
/// are a function of the text.
#[verifier::external_body]
pub(crate) fn decode(text: &str) -> (decoded: Result<Value, String>)
    ensures
        match decoded {
            Ok(value) => json_decoded(text@) == Ok::<Seq<char>, Seq<char>>(json_content(value)),
            Err(message) => json_decoded(text@) == Err::<Seq<char>, Seq<char>>(message@),
        },
{
    serde_json::from_str(text).map_err(|error| error.to_string())
}

/// `serde_json::to_string`: the compact text of a value. A value's keys are
/// strings and the text is written to memory, so there is nothing to fail.
#[verifier::external_body]
pub(crate) fn encode(value: &Value) -> (encoded: Result<String, String>)
    ensures
        encoded is Ok,
        encoded->Ok_0@ == json_content(*value),
{
    serde_json::to_string(value).map_err(|error| error.to_string())
}

/// `serde_json::Value::Null`: JSON's `null`.
#[verifier::external_body]
pub(crate) fn null() -> (value: Value)
    ensures
        json_content(value) == "null"@,
{
    Value::Null
}

/// `serde_json::Value::String`: the JSON string that holds a text. Its content
/// is the text in quotes, with JSON's escapes.
#[verifier::external_body]
pub(crate) fn string(text: &str) -> (value: Value)
    ensures
        json_content(value) == json_quoted(text@),
{
    Value::String(text.to_owned())
}

/// The sixteen digits, by their numbers: the decimal ones and then the letters
/// from `a`.
proof fn hex_digits_by_number(n: int)
    requires
        0 <= n < 16,
    ensures
        n < 10 ==> hex_digit(n) as int == '0' as int + n,
        n >= 10 ==> hex_digit(n) as int == 'a' as int + n - 10,
{
    reveal_strlit("0123456789abcdef");
    if n == 0 || n == 1 || n == 2 || n == 3 {
    } else if n == 4 || n == 5 || n == 6 || n == 7 {
    } else if n == 8 || n == 9 || n == 10 || n == 11 {
    } else if n == 12 || n == 13 || n == 14 || n == 15 {
    }
}

/// A quote and a backslash stand in a JSON string behind a backslash. The
/// control characters stand there by a letter, or by their number in four
/// digits, and every other character as it is.
pub proof fn each_character_is_escaped_as_json_has_it(c: char)
    ensures
        c == '"' ==> json_escaped(c) == seq!['\\', '"'],
        c == '\\' ==> json_escaped(c) == seq!['\\', '\\'],
        c as int == 8 ==> json_escaped(c) == seq!['\\', 'b'],
        c as int == 9 ==> json_escaped(c) == seq!['\\', 't'],
        c as int == 10 ==> json_escaped(c) == seq!['\\', 'n'],
        c as int == 12 ==> json_escaped(c) == seq!['\\', 'f'],
        c as int == 13 ==> json_escaped(c) == seq!['\\', 'r'],
        c as int >= 32 && c != '"' && c != '\\' ==> json_escaped(c) == seq![c],
        (c as int) < 8 || c as int == 11 || 14 <= (c as int) < 32 ==> {
            let escape = json_escaped(c);
            let low = c as int % 16;
            &&& escape.len() == 6
            &&& escape.take(4) == seq!['\\', 'u', '0', '0']
            &&& escape[4] == if (c as int) < 16 {
                '0'
            } else {
                '1'
            }
            &&& escape[5] as int == if low < 10 {
                '0' as int + low
            } else {
                'a' as int + low - 10
            }
        },
{
    if (c as int) < 8 || c as int == 11 || 14 <= (c as int) < 32 {
        hex_digits_by_number(c as int % 16);
        hex_digits_by_number(c as int / 16);
        assert(json_escaped(c).take(4) =~= seq!['\\', 'u', '0', '0']);
    }
}

/// A JSON string is its characters, each escaped for itself, between two
/// quotes.
pub proof fn a_json_string_is_its_escapes(text: Seq<char>, c: char)
    ensures
        json_quoted(text) == seq!['"'] + json_escapes(text) + seq!['"'],
        json_escapes(Seq::<char>::empty()) == Seq::<char>::empty(),
        json_escapes(seq![c] + text) == json_escaped(c) + json_escapes(text),
{
    assert((seq![c] + text).skip(1) =~= text);
}

/// No control character stands in a JSON string, so that it is on one line
/// whatever it holds.
pub proof fn a_json_string_holds_no_control_character(text: Seq<char>, i: int)
    requires
        0 <= i < json_escapes(text).len(),
    ensures
        json_escapes(text)[i] as int >= 32,
    decreases text.len(),
{
    assert(text.len() > 0);
    let c: char = text[0];
    let first = json_escaped(c);
    each_character_is_escaped_as_json_has_it(c);
    if 0 <= (c as int) < 32 {
        hex_digits_by_number(c as int % 16);
        hex_digits_by_number(c as int / 16);
    }
    if i >= first.len() {
        a_json_string_holds_no_control_character(text.skip(1), i - first.len());
    }
}

}
