//! JSON values as `serde_json` holds them, and the calls into that crate.
//!
//! A `serde_json::Value` is opaque to the verifier. Its mathematical content
//! is a [`JsonValue`], named by [`json_model`]; every contract in this module
//! is an assumption about `serde_json`, stated over that content.

use vstd::prelude::*;

verus! {

/// A JSON number in one of the three forms in which `serde_json` keeps it.
pub enum JsonNumber {
    /// A non-negative integer.
    PosInt(u64),
    /// A negative integer.
    NegInt(i64),
    /// A finite double, by its IEEE 754 bit pattern.
    Float(u64),
}

/// The mathematical content of a JSON value.
pub enum JsonValue {
    Null,
    Bool(bool),
    Number(JsonNumber),
    String(Seq<char>),
    Array(Seq<JsonValue>),
    Object(Map<Seq<char>, JsonValue>),
}

/// `serde_json::Value`, a JSON value of any kind.
#[verifier::external_type_specification]
#[verifier::external_body]
pub struct ExValue(serde_json::Value);

/// `serde_json::Number`, a JSON number.
#[verifier::external_type_specification]
#[verifier::external_body]
pub struct ExNumber(serde_json::Number);

/// `serde_json::Map`, the members of a JSON object.
#[verifier::external_type_specification]
#[verifier::external_body]
#[verifier::reject_recursive_types(K)]
#[verifier::reject_recursive_types(V)]
pub struct ExObject<K, V>(serde_json::Map<K, V>);

/// `serde_json::Error`, the error of the parser and of the serializer.
#[verifier::external_type_specification]
#[verifier::external_body]
pub struct ExError(serde_json::Error);

/// What a `serde_json::Value` holds.
pub uninterp spec fn json_model(v: serde_json::Value) -> JsonValue;

/// What a `serde_json::Number` holds.
pub uninterp spec fn number_model(n: serde_json::Number) -> JsonNumber;

/// The members that a `serde_json::Map` holds, by key.
pub uninterp spec fn object_model(m: serde_json::Map<String, serde_json::Value>) -> Map<
    Seq<char>,
    JsonValue,
>;

/// What `serde_json::from_str` makes of a text: the value it reads, or the
/// message of the error with which it refuses the text.
pub uninterp spec fn parsed(text: Seq<char>) -> Result<JsonValue, Seq<char>>;

/// The message that a `serde_json::Error` displays.
pub uninterp spec fn error_text(e: serde_json::Error) -> Seq<char>;

/// What `serde_json::to_string` makes of a value: the compact JSON text that
/// it writes, or the message of the error with which it fails.
pub uninterp spec fn rendered(j: JsonValue) -> Result<Seq<char>, Seq<char>>;

/// The member of an object under `key`, if the value is an object that has one.
pub open spec fn lookup(j: JsonValue, key: Seq<char>) -> Option<JsonValue> {
    match j {
        JsonValue::Object(members) => if members.contains_key(key) {
            Some(members[key])
        } else {
            None
        },
        _ => None,
    }
}

/// The contents of each value of a sequence.
pub open spec fn json_models(items: Seq<serde_json::Value>) -> Seq<JsonValue> {
    items.map_values(|v: serde_json::Value| json_model(v))
}

/// The content of an optional value.
pub open spec fn optional_model(v: Option<serde_json::Value>) -> Option<JsonValue> {
    match v {
        Some(v) => Some(json_model(v)),
        None => None,
    }
}

/// `serde_json::from_str` at type `Value`: reads one JSON value from the
/// whole of `text`. The outcome depends on the text alone.
#[verifier::external_body]
pub(crate) fn parse_value(text: &str) -> (r: Result<serde_json::Value, serde_json::Error>)
    ensures
        match r {
            Ok(v) => parsed(text@) == Ok::<JsonValue, Seq<char>>(json_model(v)),
            Err(e) => parsed(text@) == Err::<JsonValue, Seq<char>>(error_text(e)),
        },
{
    serde_json::from_str::<serde_json::Value>(text)
}

/// `serde_json::to_string` at type `Value`: writes the value as compact JSON
/// text. The outcome depends on the content of the value alone.
#[verifier::external_body]
pub(crate) fn render(v: &serde_json::Value) -> (r: Result<String, serde_json::Error>)
    ensures
        match r {
            Ok(text) => rendered(json_model(*v)) == Ok::<Seq<char>, Seq<char>>(text@),
            Err(e) => rendered(json_model(*v)) == Err::<Seq<char>, Seq<char>>(error_text(e)),
        },
{
    serde_json::to_string(v)
}

/// The `Display` form of a `serde_json::Error`, taken with `to_string`.
#[verifier::external_body]
pub(crate) fn describe(e: &serde_json::Error) -> (r: String)
    ensures
        r@ == error_text(*e),
{
    e.to_string()
}

/// `Value::get` with a string index: the member under `key` where the value
/// is an object that has one, `None` for an object without such a member and
/// for a value of any other kind.
#[verifier::external_body]
pub(crate) fn member<'a>(v: &'a serde_json::Value, key: &str) -> (r: Option<&'a serde_json::Value>)
    ensures
        match r {
            Some(found) => lookup(json_model(*v), key@) == Some(json_model(*found)),
            None => lookup(json_model(*v), key@) is None,
        },
{
    v.get(key)
}

/// `Value::as_str`: the text of a JSON string, `None` for any other kind.
pub assume_specification[ serde_json::Value::as_str ](v: &serde_json::Value) -> (r: Option<&str>)
    ensures
        match r {
            Some(text) => json_model(*v) == JsonValue::String(text@),
            None => !(json_model(*v) is String),
        },
;

/// `Value::as_u64`: the number where the value is a non-negative integer
/// that fits 64 bits, `None` for every other number and every other kind.
pub assume_specification[ serde_json::Value::as_u64 ](v: &serde_json::Value) -> (r: Option<u64>)
    ensures
        match r {
            Some(n) => json_model(*v) == JsonValue::Number(JsonNumber::PosInt(n)),
            None => !(json_model(*v) matches JsonValue::Number(JsonNumber::PosInt(_))),
        },
;

/// `Value::as_array`: the elements of a JSON array in their order, `None`
/// for any other kind.
pub assume_specification[ serde_json::Value::as_array ](v: &serde_json::Value) -> (r: Option<
    &Vec<serde_json::Value>,
>)
    ensures
        match r {
            Some(items) => json_model(*v) == JsonValue::Array(json_models(items@)),
            None => !(json_model(*v) is Array),
        },
;

/// `Value::is_object`: whether the value is a JSON object.
pub assume_specification[ serde_json::Value::is_object ](v: &serde_json::Value) -> (r: bool)
    ensures
        r == (json_model(*v) is Object),
;

/// `Value::is_null`: whether the value is JSON `null`.
pub assume_specification[ serde_json::Value::is_null ](v: &serde_json::Value) -> (r: bool)
    ensures
        r == (json_model(*v) is Null),
;

/// `Clone` for `Value`: a value with the same content.
pub assume_specification[ <serde_json::Value as Clone>::clone ](v: &serde_json::Value) -> (r:
    serde_json::Value)
    ensures
        json_model(r) == json_model(*v),
;

/// `Clone` for `Number`: the same number.
pub assume_specification[ <serde_json::Number as Clone>::clone ](n: &serde_json::Number) -> (r:
    serde_json::Number)
    ensures
        number_model(r) == number_model(*n),
;

/// The variant `Value::String`: a JSON string with the given text.
#[verifier::external_body]
pub(crate) fn text_value(text: String) -> (r: serde_json::Value)
    ensures
        json_model(r) == JsonValue::String(text@),
{
    serde_json::Value::String(text)
}

/// The variant `Value::Bool`: JSON `true` or `false`.
#[verifier::external_body]
pub(crate) fn flag_value(flag: bool) -> (r: serde_json::Value)
    ensures
        json_model(r) == JsonValue::Bool(flag),
{
    serde_json::Value::Bool(flag)
}

/// `Value::from` for `u64`: the JSON number that is this non-negative integer.
#[verifier::external_body]
pub(crate) fn count_value(n: u64) -> (r: serde_json::Value)
    ensures
        json_model(r) == JsonValue::Number(JsonNumber::PosInt(n)),
{
    serde_json::Value::from(n)
}

/// The variant `Value::Number`: the JSON value that is the given number.
#[verifier::external_body]
pub(crate) fn number_value(n: serde_json::Number) -> (r: serde_json::Value)
    ensures
        json_model(r) == JsonValue::Number(number_model(n)),
{
    serde_json::Value::Number(n)
}

/// The variant `Value::Array`: a JSON array of the given elements, in order.
#[verifier::external_body]
pub(crate) fn array_value(items: Vec<serde_json::Value>) -> (r: serde_json::Value)
    ensures
        json_model(r) == JsonValue::Array(json_models(items@)),
{
    serde_json::Value::Array(items)
}

/// The variant `Value::Object`: a JSON object with the members of the map.
#[verifier::external_body]
pub(crate) fn object_value(members: serde_json::Map<String, serde_json::Value>) -> (r:
    serde_json::Value)
    ensures
        json_model(r) == JsonValue::Object(object_model(members)),
{
    serde_json::Value::Object(members)
}

/// `Map::new`: a map without members.
pub assume_specification[ serde_json::Map::<String, serde_json::Value>::new ]() -> (r:
    serde_json::Map<String, serde_json::Value>)
    ensures
        object_model(r) =~= Map::empty(),
;

/// `Map::insert`: puts the value under the key, in place of any value that
/// the key had before.
pub assume_specification[ serde_json::Map::<String, serde_json::Value>::insert ](
    m: &mut serde_json::Map<String, serde_json::Value>,
    k: String,
    v: serde_json::Value,
) -> (r: Option<serde_json::Value>)
    ensures
        object_model(*final(m)) == object_model(*old(m)).insert(k@, json_model(v)),
;

} // verus!
