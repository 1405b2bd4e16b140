//! The JSON text that the library reads and writes, through serde_json.
use vstd::prelude::*;

verus! {

#[verifier::external_type_specification]
#[verifier::external_body]
pub struct ExJsonError(serde_json::Error);

/// The members of the JSON object that `body` encodes, each as its key and, where
/// its value is a JSON string, that string; `None` where serde_json does not
/// decode `body` as a JSON object. A key that occurs twice keeps its last value.
pub uninterp spec fn json_object_members(body: Seq<u8>) -> Option<Seq<(Seq<char>, Option<Seq<char>>)>>;

/// The lower-case hexadecimal digit for `n < 16`.
pub open spec fn hex_digit(n: int) -> char {
    seq!['0', '1', '2', '3', '4', '5', '6', '7', '8', '9', 'a', 'b', 'c', 'd', 'e', 'f'][n]
}

/// How one character stands inside a JSON string literal: the quote and the
/// backslash after a backslash, five control characters by their short escape,
/// the other control characters as `\u00xx`, every other character as itself.
pub open spec fn json_escaped_char(c: char) -> Seq<char> {
    if c == '"' {
        seq!['\\', '"']
    } else if c == '\\' {
        seq!['\\', '\\']
    } else if c == '\u{8}' {
        seq!['\\', 'b']
    } else if c == '\t' {
        seq!['\\', 't']
    } else if c == '\n' {
        seq!['\\', 'n']
    } else if c == '\u{c}' {
        seq!['\\', 'f']
    } else if c == '\r' {
        seq!['\\', 'r']
    } else if (c as int) < 0x20 {
        seq!['\\', 'u', '0', '0', hex_digit(c as int / 16), hex_digit(c as int % 16)]
    } else {
        seq![c]
    }
}

/// The characters of `s`, each escaped for a JSON string literal.
pub open spec fn json_escaped(s: Seq<char>) -> Seq<char>
    decreases s.len(),
{
    if s.len() == 0 {
        Seq::empty()
    } else {
        json_escaped(s.drop_last()) + json_escaped_char(s.last())
    }
}

/// The JSON string literal that encodes `s`: its escaped characters in quotes.
pub open spec fn json_string_literal(s: Seq<char>) -> Seq<char> {
    seq!['"'] + json_escaped(s) + seq!['"']
}

/// Relies on `serde_json::from_slice` into a `serde_json::Map` (a JSON object and
/// nothing else) to decode `body`, and on `Value::as_str` to tell string values.
#[verifier::external_body]
pub(crate) fn decode_json_object(body: &[u8]) -> (r: Result<Vec<(String, Option<String>)>, serde_json::Error>)
    ensures
        match r {
            Ok(members) => json_object_members(body@) == Some(members.deep_view()),
            Err(_) => json_object_members(body@) is None,
        },
{
    serde_json::from_slice::<serde_json::Map<String, serde_json::Value>>(body).map(
        |object| object.iter().map(|(k, v)| (k.clone(), v.as_str().map(str::to_owned))).collect(),
    )
}

/// Relies on `serde_json::to_string` of a `str`: the quoted, escaped literal. It
/// writes into a `Vec`, which never fails, so the result is always `Ok`.
#[verifier::external_body]
pub(crate) fn quote_json_string(s: &str) -> (r: Result<String, serde_json::Error>)
    ensures
        r is Ok,
        r matches Ok(q) ==> q@ == json_string_literal(s@),
{
    serde_json::to_string(s)
}

} // verus!
