//! Talking to the Slack Web API: the replies it gives, what is logged of them, and the
//! profile fields that `slacli profile edit` sends.
use vstd::prelude::*;
use crate::app_error::{AppError, ErrorKind};
use crate::config::ostr;
use crate::json::{
    json_bool_field, json_boolean_field, json_reparse, json_reparse_text, json_str_field,
    json_string_field, json_with_field, json_with_string_field,
};
use crate::str_map::StrMap;
use crate::text::{append_str, concat};

verus! {

/// The message for a reply with an HTTP status outside the success range.
pub open spec fn http_error_msg(status: Seq<char>, body: Seq<char>) -> Seq<char> {
    "HTTP "@ + status + ": "@ + body
}

/// What a reply of the API comes to: an HTTP status outside 200..=299 is a network error;
/// otherwise the body must be JSON, and the compact text of it is what is printed.
pub open spec fn reply_text_spec(code: u16, status: Seq<char>, body: Seq<char>) -> Result<
    Seq<char>,
    (ErrorKind, Seq<char>),
> {
    if !(200 <= code <= 299) {
        Err((ErrorKind::Network, http_error_msg(status, body)))
    } else {
        match json_reparse(body) {
            Ok(t) => Ok(t),
            Err(m) => Err((ErrorKind::Api, "Invalid JSON response: "@ + m)),
        }
    }
}

/// Reads a reply of the API: its HTTP status code, the status as displayed (`404 Not
/// Found`), and its body. Gives the compact JSON text of the body.
pub fn read_reply(code: u16, status: &str, body: &str) -> (r: Result<String, AppError>)
    ensures
        match r {
            Ok(t) => reply_text_spec(code, status@, body@) == Ok::<
                Seq<char>,
                (ErrorKind, Seq<char>),
            >(t@),
            Err(e) => reply_text_spec(code, status@, body@) == Err::<
                Seq<char>,
                (ErrorKind, Seq<char>),
            >(e@),
        },
{
    if !(200 <= code && code <= 299) {
        let mut msg = concat("HTTP ", status);
        append_str(&mut msg, ": ");
        append_str(&mut msg, body);
        return Err(AppError::Network(msg));
    }
    match json_reparse_text(body) {
        Ok(t) => Ok(t),
        Err(m) => Err(AppError::Api(concat("Invalid JSON response: ", m.as_str()))),
    }
}

/// A reply succeeded when its `ok` field is `true`; otherwise its `error` field, or
/// `unknown error`, is reported.
pub open spec fn reply_check_spec(reply: Seq<char>) -> Result<(), (ErrorKind, Seq<char>)> {
    if json_bool_field(reply, "ok"@) == Some(true) {
        Ok(())
    } else {
        Err(
            (
                ErrorKind::Api,
                match json_str_field(reply, "error"@) {
                    Some(e) => e,
                    None => "unknown error"@,
                },
            ),
        )
    }
}

/// Checks the JSON text of a reply.
pub fn check_reply(reply: &str) -> (r: Result<(), AppError>)
    ensures
        match r {
            Ok(_) => reply_check_spec(reply@) is Ok,
            Err(e) => reply_check_spec(reply@) == Err::<(), (ErrorKind, Seq<char>)>(e@),
        },
{
    if json_boolean_field(reply, "ok") == Some(true) {
        return Ok(());
    }
    match json_string_field(reply, "error") {
        Some(e) => Err(AppError::Api(e)),
        None => Err(AppError::Api("unknown error".to_string())),
    }
}

/// The log line for a successful reply: the reply with `_slacli_profile` set to the profile
/// used (`None` when the reply is not a JSON object).
pub fn log_entry(reply: &str, profile_name: &str) -> (r: Option<String>)
    ensures
        ostr(r) == json_with_field(reply@, "_slacli_profile"@, profile_name@),
{
    json_with_string_field(reply, "_slacli_profile", profile_name)
}

/// A profile field's value as sent: a number when the text is a `u64`, else the text.
#[derive(Debug)]
pub enum FieldValue {
    Number(u64),
    Text(String),
}

/// The view of a `FieldValue`.
pub enum FieldValueSpec {
    Number(u64),
    Text(Seq<char>),
}

impl View for FieldValue {
    type V = FieldValueSpec;

    open spec fn view(&self) -> FieldValueSpec {
        match self {
            FieldValue::Number(n) => FieldValueSpec::Number(*n),
            FieldValue::Text(t) => FieldValueSpec::Text(t@),
        }
    }
}

/// Whether `c` is an ASCII decimal digit.
pub open spec fn is_digit(c: char) -> bool {
    '0' <= c <= '9'
}

/// The number that a string of decimal digits stands for.
pub open spec fn digits_value(d: Seq<char>) -> int
    decreases d.len(),
{
    if d.len() == 0 {
        0
    } else {
        digits_value(d.drop_last()) * 10 + (d.last() as int - '0' as int)
    }
}

/// The text after an optional leading `+`.
pub open spec fn unsigned_digits(s: Seq<char>) -> Seq<char> {
    if s.len() > 0 && s[0] == '+' {
        s.drop_first()
    } else {
        s
    }
}

/// Whether every character is a decimal digit.
pub open spec fn all_digits(d: Seq<char>) -> bool {
    forall|i: int| 0 <= i < d.len() ==> is_digit(#[trigger] d[i])
}

/// The number that `u64::from_str` reads: an optional `+`, then at least one decimal digit,
/// with a value that fits in a `u64`.
pub open spec fn u64_text(s: Seq<char>) -> Option<u64> {
    let d = unsigned_digits(s);
    if d.len() > 0 && all_digits(d) && digits_value(d) <= u64::MAX {
        Some(digits_value(d) as u64)
    } else {
        None
    }
}

/// `u64::from_str`, which accepts an optional `+` followed by decimal digits that fit.
pub fn parse_u64(s: &str) -> (r: Option<u64>)
    ensures
        r == u64_text(s@),
{
    let n = s.unicode_len();
    let start: usize = if n > 0 && s.get_char(0) == '+' {
        1
    } else {
        0
    };
    let ghost d = unsigned_digits(s@);
    assert(d =~= s@.skip(start as int));
    if start >= n {
        return None;
    }
    let mut acc: Option<u64> = Some(0);
    let ghost mut value: int = 0;
    let mut i = start;
    while i < n
        invariant
            n == s@.len(),
            start <= i <= n,
            d =~= s@.skip(start as int),
            d == unsigned_digits(s@),
            forall|j: int| start <= j < i ==> is_digit(#[trigger] s@[j]),
            value == digits_value(s@.subrange(start as int, i as int)),
            value >= 0,
            match acc {
                Some(v) => v == value,
                None => value > u64::MAX,
            },
        decreases n - i,
    {
        let c = s.get_char(i);
        if !('0' <= c && c <= '9') {
            proof {
                assert(0 <= i - start < d.len());
                assert(d[i - start] == c);
                assert(!is_digit(c));
                assert(!all_digits(d));
            }
            return None;
        }
        let digit = (c as u32 - '0' as u32) as u64;
        proof {
            let pre = s@.subrange(start as int, i as int);
            assert(s@.subrange(start as int, i + 1).drop_last() =~= pre);
            value = value * 10 + digit;
        }
        acc = match acc {
            Some(v) => match v.checked_mul(10) {
                Some(m) => m.checked_add(digit),
                None => None,
            },
            None => None,
        };
        i = i + 1;
    }
    assert(s@.subrange(start as int, n as int) =~= d);
    acc
}

/// The value sent for a field's text.
pub open spec fn field_value_spec(text: Seq<char>) -> FieldValueSpec {
    match u64_text(text) {
        Some(n) => FieldValueSpec::Number(n),
        None => FieldValueSpec::Text(text),
    }
}

/// The value sent for a field's text.
pub fn field_value(text: &str) -> (r: FieldValue)
    ensures
        r@ == field_value_spec(text@),
{
    match parse_u64(text) {
        Some(n) => FieldValue::Number(n),
        None => FieldValue::Text(text.to_string()),
    }
}

/// The profile object sent by `profile edit`: each `key=value` in order, a later value for
/// the same key replacing an earlier one.
pub open spec fn profile_object(fields: Seq<(String, String)>) -> Map<Seq<char>, FieldValueSpec>
    decreases fields.len(),
{
    if fields.len() == 0 {
        Map::empty()
    } else {
        profile_object(fields.drop_last()).insert(
            fields.last().0@,
            field_value_spec(fields.last().1@),
        )
    }
}

/// Builds the profile object of `profile edit`; at least one field is needed.
pub fn profile_fields(fields: &Vec<(String, String)>) -> (r: Result<StrMap<FieldValue>, AppError>)
    ensures
        fields@.len() == 0 ==> (r matches Err(e) && e@ == (
            ErrorKind::Validation,
            "At least one --set field must be specified."@,
        )),
        fields@.len() > 0 ==> (r matches Ok(m) && m@ == profile_object(fields@)),
{
    if fields.len() == 0 {
        return Err(AppError::Validation("At least one --set field must be specified.".to_string()));
    }
    let mut m: StrMap<FieldValue> = StrMap::new();
    let mut i: usize = 0;
    while i < fields.len()
        invariant
            0 <= i <= fields@.len(),
            m@ == profile_object(fields@.take(i as int)),
        decreases fields@.len() - i,
    {
        let (k, v) = &fields[i];
        let fv = field_value(v.as_str());
        m.insert(k.clone(), fv);
        assert(fields@.take(i + 1).drop_last() =~= fields@.take(i as int));
        i = i + 1;
    }
    assert(fields@.take(fields@.len() as int) =~= fields@);
    Ok(m)
}

/// A text `u64::from_str` accepts is non-empty and made of decimal digits, after at most one
/// leading `+` that is followed by a digit.
pub proof fn law_u64_text_is_digits(t: Seq<char>)
    ensures
        u64_text(t) is Some ==> t.len() > 0 && (forall|i: int|
            0 <= i < t.len() ==> is_digit(#[trigger] t[i]) || (i == 0 && t[i] == '+'))
            && !(t.len() == 1 && t[0] == '+'),
{
    if u64_text(t) is Some {
        let d = unsigned_digits(t);
        assert forall|i: int| 0 <= i < t.len() implies is_digit(#[trigger] t[i]) || (i == 0 && t[i]
            == '+') by {
            if t.len() > 0 && t[0] == '+' {
                if i > 0 {
                    assert(d[i - 1] == t[i]);
                }
            } else {
                assert(d[i] == t[i]);
            }
        }
    }
}

/// A field is sent as a number exactly when `u64::from_str` accepts its text, with the value
/// it reads; otherwise it is sent as the text unchanged. In particular an empty text is sent
/// as an empty text.
pub proof fn law_field_value_number_iff_u64(t: Seq<char>)
    ensures
        forall|n: u64| (field_value_spec(t) == FieldValueSpec::Number(n)) <==> u64_text(t) == Some(n),
        field_value_spec(t) is Text ==> field_value_spec(t) == FieldValueSpec::Text(t),
        t.len() == 0 ==> field_value_spec(t) == FieldValueSpec::Text(t),
{
    law_u64_text_is_digits(t);
}

} // verus!
