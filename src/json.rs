//! The calls into serde_json that the protocol makes, each behind one trusted item.
use vstd::prelude::*;

verus! {

#[verifier::external_type_specification]
#[verifier::external_body]
pub struct ExJsonValue(serde_json::Value);

#[verifier::external_type_specification]
#[verifier::external_body]
pub struct ExJsonError(serde_json::Error);

/// Relies on the derived `Clone` of `serde_json::Value`: a copy equal to the original.
pub assume_specification[ <serde_json::Value as Clone>::clone ](v: &serde_json::Value) -> (r: serde_json::Value)
    ensures
        r == *v,
;

pub open spec fn hex_char(d: int) -> char {
    seq!['0', '1', '2', '3', '4', '5', '6', '7', '8', '9', 'a', 'b', 'c', 'd', 'e', 'f'][d]
}

/// How serde_json writes one character inside a string literal: `"` and `\`
/// behind a backslash, the five short control escapes, other control
/// characters as `\u00XX` in lower-case hex, and everything else unchanged.
pub open spec fn escape_char(c: char) -> Seq<char> {
    if c == '"' {
        seq!['\\', '"']
    } else if c == '\\' {
        seq!['\\', '\\']
    } else if c == '\x08' {
        seq!['\\', 'b']
    } else if c == '\t' {
        seq!['\\', 't']
    } else if c == '\n' {
        seq!['\\', 'n']
    } else if c == '\x0C' {
        seq!['\\', 'f']
    } else if c == '\r' {
        seq!['\\', 'r']
    } else if (c as u32) < 0x20 {
        seq!['\\', 'u', '0', '0', hex_char((c as u32) as int / 16), hex_char((c as u32) as int % 16)]
    } else {
        seq![c]
    }
}

pub open spec fn escaped(s: Seq<char>) -> Seq<char>
    decreases s.len(),
{
    if s.len() == 0 {
        seq![]
    } else {
        escaped(s.drop_last()) + escape_char(s.last())
    }
}

/// The compact JSON text that serde_json writes for a string.
pub open spec fn json_string_text(s: Seq<char>) -> Seq<char> {
    seq!['"'] + escaped(s) + seq!['"']
}

/// The value that serde_json parses from a text, where the text is one JSON document.
pub uninterp spec fn json_parsed(text: Seq<char>) -> Option<serde_json::Value>;

/// The compact JSON text that serde_json writes for a value.
pub uninterp spec fn json_value_text(v: serde_json::Value) -> Seq<char>;

/// Whether a value is a JSON object.
pub uninterp spec fn json_is_object_of(v: serde_json::Value) -> bool;

/// The member of an object under a key; none for a non-object.
pub uninterp spec fn json_member_of(v: serde_json::Value, key: Seq<char>) -> Option<serde_json::Value>;

/// Whether a value is JSON `null`.
pub uninterp spec fn json_is_null_of(v: serde_json::Value) -> bool;

/// The value of a JSON boolean.
pub uninterp spec fn json_bool_of(v: serde_json::Value) -> Option<bool>;

/// The value of a JSON number that is a non-negative integer fitting in 64 bits.
pub uninterp spec fn json_u64_of(v: serde_json::Value) -> Option<u64>;

/// The contents of a JSON string.
pub uninterp spec fn json_text_of(v: serde_json::Value) -> Option<Seq<char>>;

/// The JSON string value holding a text.
pub uninterp spec fn json_string_value(s: Seq<char>) -> serde_json::Value;

/// Relies on `serde_json::from_str::<Value>`: parses one JSON document; the
/// result depends on the text alone.
#[verifier::external_body]
pub(crate) fn parse_json(text: &str) -> (r: Result<serde_json::Value, serde_json::Error>)
    ensures
        r is Ok <==> json_parsed(text@) is Some,
        r is Ok ==> r->Ok_0 == json_parsed(text@)->Some_0,
{
    serde_json::from_str(text)
}

/// Relies on `serde_json::to_string` for a `str`: the escaped JSON string
/// literal. Writing a string into a `Vec` never fails.
#[verifier::external_body]
pub(crate) fn string_to_json(s: &str) -> (r: Result<String, serde_json::Error>)
    ensures
        r is Ok,
        r is Ok ==> r->Ok_0@ == json_string_text(s@),
{
    serde_json::to_string(s)
}

/// Relies on `serde_json::to_string` for a `Value`: its compact JSON text.
/// A `Value` has only string keys, so this never fails.
#[verifier::external_body]
pub(crate) fn value_to_json(v: &serde_json::Value) -> (r: Result<String, serde_json::Error>)
    ensures
        r is Ok,
        r is Ok ==> r->Ok_0@ == json_value_text(*v),
{
    serde_json::to_string(v)
}

/// Relies on the `Display` of `serde_json::Error`: its message.
#[verifier::external_body]
pub(crate) fn error_text(e: &serde_json::Error) -> (r: String) {
    e.to_string()
}

/// Relies on `Value::is_object`.
#[verifier::external_body]
pub(crate) fn is_object(v: &serde_json::Value) -> (r: bool)
    ensures
        r == json_is_object_of(*v),
{
    v.is_object()
}

/// Relies on `Value::get` with a string key: the member of an object of that name.
#[verifier::external_body]
pub(crate) fn member<'a>(v: &'a serde_json::Value, key: &str) -> (r: Option<&'a serde_json::Value>)
    ensures
        r is Some <==> json_member_of(*v, key@) is Some,
        r is Some ==> *r->Some_0 == json_member_of(*v, key@)->Some_0,
{
    v.get(key)
}

/// Relies on `Value::is_null`.
#[verifier::external_body]
pub(crate) fn is_null(v: &serde_json::Value) -> (r: bool)
    ensures
        r == json_is_null_of(*v),
{
    v.is_null()
}

/// Relies on `Value::as_bool`: the value of a JSON boolean.
#[verifier::external_body]
pub(crate) fn as_bool(v: &serde_json::Value) -> (r: Option<bool>)
    ensures
        r == json_bool_of(*v),
{
    v.as_bool()
}

/// Relies on `Value::as_u64`: the value of a JSON number that is a non-negative integer.
#[verifier::external_body]
pub(crate) fn as_u64(v: &serde_json::Value) -> (r: Option<u64>)
    ensures
        r == json_u64_of(*v),
{
    v.as_u64()
}

/// Relies on `Value::as_str`: the contents of a JSON string.
#[verifier::external_body]
pub(crate) fn as_text(v: &serde_json::Value) -> (r: Option<String>)
    ensures
        r is Some <==> json_text_of(*v) is Some,
        r is Some ==> r->Some_0@ == json_text_of(*v)->Some_0,
{
    v.as_str().map(|s| s.to_string())
}

/// Relies on the `Value::String` constructor.
#[verifier::external_body]
pub(crate) fn text_value(s: String) -> (r: serde_json::Value)
    ensures
        r == json_string_value(s@),
{
    serde_json::Value::String(s)
}

} // verus!
