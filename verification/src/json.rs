//! The JSON values that the settings file is read from and written as.
//!
//! The values themselves are `serde_json`'s. This module gives them a
//! mathematical model, [`Json`], and states what each `serde_json` call used
//! by the store does in terms of that model. Nothing in this module is proved:
//! every contract here is taken from the `serde_json` sources, for a
//! `serde_json` built with its default features, which keeps the members of
//! an object sorted by key.
//!
//! What `serde_json` reads from a text and what it writes for a value take
//! pages to say, so these two results only have names here, [`json_parsed`]
//! and [`json_pretty`]; that writing and reading again gives the same value is
//! not assumed.

use vstd::prelude::*;

verus! {

/// A JSON number as `serde_json` holds it: an integer that fits `u64` and is
/// not negative, a negative integer, or a finite binary fraction, stood for by
/// its bit pattern.
pub enum JsonNumber {
    Unsigned(u64),
    Negative(i64),
    Fraction(u64),
}

/// The members of a JSON object: its values, by key.
pub type JsonMembers = Map<Seq<char>, Json>;

/// The mathematical model of a JSON value.
pub enum Json {
    Null,
    Bool(bool),
    Number(JsonNumber),
    Text(Seq<char>),
    Array(Seq<Json>),
    Object(JsonMembers),
}

/// `serde_json::Value`, a JSON value. What one holds is [`json_of`] it.
#[verifier::external_type_specification]
#[verifier::external_body]
pub struct ExValue(serde_json::Value);

/// `serde_json::Error`, what reading or writing JSON fails with. Nothing is
/// said of what one holds.
#[verifier::external_type_specification]
#[verifier::external_body]
pub struct ExJsonError(serde_json::Error);

/// `serde_json::Map`, the members of a JSON object while it is put together.
/// What one holds is [`members_of`] it.
#[verifier::external_type_specification]
#[verifier::external_body]
#[verifier::reject_recursive_types(K)]
#[verifier::reject_recursive_types(V)]
pub struct ExObject<K, V>(serde_json::Map<K, V>);

/// The JSON value that a `serde_json::Value` holds.
pub uninterp spec fn json_of(v: serde_json::Value) -> Json;

/// The members that a `serde_json::Map` holds, by key.
pub uninterp spec fn members_of(m: serde_json::Map<String, serde_json::Value>) -> JsonMembers;

/// The value that `serde_json::from_str` reads from a text, or `None` where
/// it reports an error.
pub uninterp spec fn json_parsed(text: Seq<char>) -> Option<Json>;

/// The text that `serde_json::to_string_pretty` writes for a value.
pub uninterp spec fn json_pretty(doc: Json) -> Seq<char>;

/// `serde_json::from_str` at type `Value`: the result depends on the text
/// alone, and is an error exactly where [`json_parsed`] is `None`.
#[verifier::external_body]
pub(crate) fn parse_value(text: &str) -> (r: Result<serde_json::Value, serde_json::Error>)
    ensures
        r is Ok <==> json_parsed(text@) is Some,
        r is Ok ==> json_parsed(text@) == Some(json_of(r->Ok_0)),
{
    serde_json::from_str::<serde_json::Value>(text)
}

/// `serde_json::to_string_pretty` on a `Value`: it succeeds, and the text is
/// [`json_pretty`] of the value. The writer fails only where the sink does
/// or a key is no string; here the sink is a vector in memory, and the keys
/// of a `Value` are strings.
#[verifier::external_body]
pub(crate) fn pretty_text(v: &serde_json::Value) -> (r: Result<String, serde_json::Error>)
    ensures
        r is Ok,
        r->Ok_0@ == json_pretty(json_of(*v)),
{
    serde_json::to_string_pretty(v)
}

/// `Value::get` with a string index: the member under `key` where the value
/// is an object that has one, else `None`.
#[verifier::external_body]
pub(crate) fn member<'a>(v: &'a serde_json::Value, key: &str) -> (r: Option<&'a serde_json::Value>)
    ensures
        match json_of(*v) {
            Json::Object(m) => if m.contains_key(key@) {
                r is Some && json_of(*r->Some_0) == m[key@]
            } else {
                r is None
            },
            _ => r is None,
        },
{
    v.get(key)
}

/// `Value::as_str`: the text of a JSON string, and `None` for every other
/// value.
pub assume_specification<'a>[ serde_json::Value::as_str ](v: &'a serde_json::Value) -> (r: Option<&'a str>)
    ensures
        match json_of(*v) {
            Json::Text(s) => r is Some && r->Some_0@ == s,
            _ => r is None,
        },
;

/// `Value::as_bool`: the flag of a JSON boolean, and `None` for every other
/// value.
pub assume_specification[ serde_json::Value::as_bool ](v: &serde_json::Value) -> (r: Option<bool>)
    ensures
        match json_of(*v) {
            Json::Bool(b) => r == Some(b),
            _ => r is None,
        },
;

/// `Value::as_u64`: the integer of a JSON number that is an integer from 0
/// to the largest `u64`, and `None` for every other number and value.
pub assume_specification[ serde_json::Value::as_u64 ](v: &serde_json::Value) -> (r: Option<u64>)
    ensures
        match json_of(*v) {
            Json::Number(JsonNumber::Unsigned(n)) => r == Some(n),
            _ => r is None,
        },
;

/// `Value::is_null`: whether the value is the JSON null.
pub assume_specification[ serde_json::Value::is_null ](v: &serde_json::Value) -> (r: bool)
    ensures
        r == (json_of(*v) is Null),
;

/// `Value::is_object`: whether the value is a JSON object.
pub assume_specification[ serde_json::Value::is_object ](v: &serde_json::Value) -> (r: bool)
    ensures
        r == (json_of(*v) is Object),
;

/// `Map::new`: a map without members.
#[verifier::external_body]
pub(crate) fn empty_members() -> (m: serde_json::Map<String, serde_json::Value>)
    ensures
        members_of(m) == JsonMembers::empty(),
{
    serde_json::Map::new()
}

/// `Map::insert`: afterwards the map holds `v` under `key`, in place of what
/// it held there, and its other members as before.
#[verifier::external_body]
pub(crate) fn put_member(m: &mut serde_json::Map<String, serde_json::Value>, key: String, v: serde_json::Value)
    ensures
        members_of(*final(m)) == members_of(*old(m)).insert(key@, json_of(v)),
{
    m.insert(key, v);
}

/// `Value::String`: the JSON string with the given text.
#[verifier::external_body]
pub(crate) fn text_value(s: String) -> (v: serde_json::Value)
    ensures
        json_of(v) == Json::Text(s@),
{
    serde_json::Value::String(s)
}

/// `Value::Bool`: the JSON boolean.
#[verifier::external_body]
pub(crate) fn bool_value(b: bool) -> (v: serde_json::Value)
    ensures
        json_of(v) == Json::Bool(b),
{
    serde_json::Value::Bool(b)
}

/// `Value::from` on a `u64`: the JSON number that is this integer.
#[verifier::external_body]
pub(crate) fn number_value(n: u64) -> (v: serde_json::Value)
    ensures
        json_of(v) == Json::Number(JsonNumber::Unsigned(n)),
{
    serde_json::Value::from(n)
}

/// `Value::Object`: the JSON object with the members of the map.
#[verifier::external_body]
pub(crate) fn object_value(m: serde_json::Map<String, serde_json::Value>) -> (v: serde_json::Value)
    ensures
        json_of(v) == Json::Object(members_of(m)),
{
    serde_json::Value::Object(m)
}

} // verus!
