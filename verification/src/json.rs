//! The JSON texts this crate reads and writes, through `serde_json`.
use vstd::prelude::*;
use crate::config::ostr;
use crate::copy::hex_digits;

verus! {

/// How `serde_json` writes one character inside a JSON string: `"` and `\` escaped with a
/// backslash; backspace, tab, newline, form feed and carriage return as `\b`, `\t`, `\n`,
/// `\f`, `\r`; any other control character below U+0020 as `\u00` and two lowercase hex
/// digits; everything else as it is.
pub open spec fn json_escape(c: char) -> Seq<char> {
    let v = c as u32;
    if c == '"' {
        seq!['\\', '"']
    } else if c == '\\' {
        seq!['\\', '\\']
    } else if v == 0x08 {
        seq!['\\', 'b']
    } else if v == 0x09 {
        seq!['\\', 't']
    } else if v == 0x0A {
        seq!['\\', 'n']
    } else if v == 0x0C {
        seq!['\\', 'f']
    } else if v == 0x0D {
        seq!['\\', 'r']
    } else if v < 0x20 {
        seq!['\\', 'u', '0', '0', hex_digits()[(v / 16) as int], hex_digits()[(v % 16) as int]]
    } else {
        seq![c]
    }
}

/// The characters of a string, each written as `json_escape` gives.
pub open spec fn json_escaped(s: Seq<char>) -> Seq<char>
    decreases s.len(),
{
    if s.len() == 0 {
        Seq::empty()
    } else {
        json_escaped(s.drop_last()) + json_escape(s.last())
    }
}

/// The JSON text of a string value: the escaped text between double quotes.
pub open spec fn json_string(s: Seq<char>) -> Seq<char> {
    seq!['"'] + json_escaped(s) + seq!['"']
}

/// `serde_json::Value::String(s).to_string()`: the JSON text of a string value. Claimed: the
/// result is `json_string` of the text (`serde_json`'s escape table).
#[verifier::external_body]
pub(crate) fn json_quote(s: &str) -> (r: String)
    ensures
        r@ == json_string(s@),
{
    serde_json::Value::String(s.to_string()).to_string()
}

/// What `serde_json` finds under `key` in the JSON text `line`: the string there, if the
/// line parses as JSON and the field holds a string.
pub uninterp spec fn json_str_field(line: Seq<char>, key: Seq<char>) -> Option<Seq<char>>;

/// `serde_json::from_str::<Value>(line)`, then `get(key)` and `as_str`. Claimed: the result
/// is `json_str_field` of the line and the key.
#[verifier::external_body]
pub(crate) fn json_string_field(line: &str, key: &str) -> (r: Option<String>)
    ensures
        ostr(r) == json_str_field(line@, key@),
{
    match serde_json::from_str::<serde_json::Value>(line) {
        Ok(v) => v.get(key).and_then(serde_json::Value::as_str).map(str::to_string),
        Err(_) => None,
    }
}

/// What parsing `text` as JSON and writing the value back compactly gives: the compact text,
/// or the parser's error message.
pub uninterp spec fn json_reparse(text: Seq<char>) -> Result<Seq<char>, Seq<char>>;

/// `serde_json::from_str::<Value>(text)`, then `to_string` of the value or of the error.
/// Claimed: the outcome is `json_reparse` of the text.
#[verifier::external_body]
pub(crate) fn json_reparse_text(text: &str) -> (r: Result<String, String>)
    ensures
        match r {
            Ok(t) => json_reparse(text@) == Ok::<Seq<char>, Seq<char>>(t@),
            Err(m) => json_reparse(text@) == Err::<Seq<char>, Seq<char>>(m@),
        },
{
    match serde_json::from_str::<serde_json::Value>(text) {
        Ok(v) => Ok(v.to_string()),
        Err(e) => Err(e.to_string()),
    }
}

/// What `serde_json` finds under `key` in the JSON text `text`: the boolean there, if the
/// text parses as JSON and the field holds a boolean.
pub uninterp spec fn json_bool_field(text: Seq<char>, key: Seq<char>) -> Option<bool>;

/// `serde_json::from_str::<Value>(text)`, then `get(key)` and `as_bool`. Claimed: the result
/// is `json_bool_field` of the text and the key.
#[verifier::external_body]
pub(crate) fn json_boolean_field(text: &str, key: &str) -> (r: Option<bool>)
    ensures
        r == json_bool_field(text@, key@),
{
    match serde_json::from_str::<serde_json::Value>(text) {
        Ok(v) => v.get(key).and_then(serde_json::Value::as_bool),
        Err(_) => None,
    }
}

/// The compact JSON text of the object `text` with the string field `key` set to `value`;
/// `None` when `text` is not a JSON object.
pub uninterp spec fn json_with_field(text: Seq<char>, key: Seq<char>, value: Seq<char>) -> Option<
    Seq<char>,
>;

/// `serde_json::from_str::<Value>(text)`, `as_object_mut`, `insert(key, Value::String(value))`
/// and `to_string`. Claimed: the result is `json_with_field` of the three texts.
#[verifier::external_body]
pub(crate) fn json_with_string_field(text: &str, key: &str, value: &str) -> (r: Option<String>)
    ensures
        ostr(r) == json_with_field(text@, key@, value@),
{
    match serde_json::from_str::<serde_json::Value>(text) {
        Ok(mut v) => match v.as_object_mut() {
            Some(m) => {
                m.insert(key.to_string(), serde_json::Value::String(value.to_string()));
                Some(v.to_string())
            },
            None => None,
        },
        Err(_) => None,
    }
}

} // verus!
