//! JSON documents: a mathematical model of them, and the `serde_json` calls
//! that read and build the values the model describes.

use serde_json::Value;
use vstd::prelude::*;

verus! {

/// A JSON document as a mathematical value.
///
/// Numbers are told apart only as far as this crate reads them: a number is
/// `Unsigned` where `serde_json` holds it as an unsigned 64-bit integer, and
/// `OtherNumber` where it holds it as a negative integer or a float.
pub enum Json {
    Null,
    Bool(bool),
    Unsigned(u64),
    OtherNumber,
    Text(Seq<char>),
    List(Seq<Json>),
    Object(Map<Seq<char>, Json>),
}

impl Json {
    /// The member stored under `key`, where this document is an object that
    /// has one.
    pub open spec fn member(self, key: Seq<char>) -> Option<Json> {
        match self {
            Json::Object(members) if members.dom().contains(key) => Some(members[key]),
            _ => None,
        }
    }

    /// The text stored under `key`, where the member exists and is a string.
    pub open spec fn text_at(self, key: Seq<char>) -> Option<Seq<char>> {
        match self.member(key) {
            Some(Json::Text(text)) => Some(text),
            _ => None,
        }
    }

    /// The boolean stored under `key`, where the member exists and is one.
    pub open spec fn flag_at(self, key: Seq<char>) -> Option<bool> {
        match self.member(key) {
            Some(Json::Bool(flag)) => Some(flag),
            _ => None,
        }
    }

    /// The number stored under `key`, where the member exists and is an
    /// unsigned integer that fits in 32 bits.
    pub open spec fn count_at(self, key: Seq<char>) -> Option<u32> {
        match self.member(key) {
            Some(Json::Unsigned(n)) if n <= u32::MAX => Some(n as u32),
            _ => None,
        }
    }

    /// This object with `member` stored under `key`.
    pub open spec fn with(self, key: Seq<char>, member: Json) -> Json
        recommends
            self is Object,
    {
        Json::Object(self->Object_0.insert(key, member))
    }

    /// The object without members.
    pub open spec fn empty_object() -> Json {
        Json::Object(Map::empty())
    }
}

/// `serde_json::Value`, a JSON document in memory. Nothing is read from it
/// here but through [`json_of`].
#[verifier::external_type_specification]
#[verifier::external_body]
pub struct ExValue(serde_json::Value);

/// The document that a `serde_json::Value` holds.
pub uninterp spec fn json_of(value: Value) -> Json;

/// The document that `serde_json::from_str` reads from `text`, or `None`
/// where it reports an error.
pub uninterp spec fn json_parse(text: Seq<char>) -> Option<Json>;

/// The documents that a vector of values holds, in order.
pub open spec fn json_of_each(values: Seq<Value>) -> Seq<Json> {
    values.map_values(|value: Value| json_of(value))
}

/// `serde_json::from_str` at type `Value`: whether and what it reads depends
/// on the text alone. The error it reports is dropped.
#[verifier::external_body]
pub(crate) fn parse(text: &str) -> (parsed: Option<Value>)
    ensures
        match parsed {
            Some(value) => json_parse(text@) == Some(json_of(value)),
            None => json_parse(text@) is None,
        },
{
    serde_json::from_str(text).ok()
}

/// `Value::get` with a string key: the member of an object under that key,
/// and `None` for a missing key or a value that is no object.
#[verifier::external_body]
pub(crate) fn member<'a>(value: &'a Value, key: &str) -> (found: Option<&'a Value>)
    ensures
        match found {
            Some(member) => json_of(*value).member(key@) == Some(json_of(*member)),
            None => json_of(*value).member(key@) is None,
        },
{
    value.get(key)
}

/// `Value::as_str`: the text of a JSON string, `None` for any other value.
#[verifier::external_body]
pub(crate) fn as_text<'a>(value: &'a Value) -> (text: Option<&'a str>)
    ensures
        match text {
            Some(text) => json_of(*value) == Json::Text(text@),
            None => !(json_of(*value) is Text),
        },
{
    value.as_str()
}

/// `Value::as_bool`: the value of a JSON boolean, `None` for any other value.
#[verifier::external_body]
pub(crate) fn as_flag(value: &Value) -> (flag: Option<bool>)
    ensures
        match flag {
            Some(flag) => json_of(*value) == Json::Bool(flag),
            None => !(json_of(*value) is Bool),
        },
{
    value.as_bool()
}

/// `Value::as_u64`: the value of a number that is an unsigned integer, `None`
/// for any other number and any other value.
#[verifier::external_body]
pub(crate) fn as_unsigned(value: &Value) -> (number: Option<u64>)
    ensures
        match number {
            Some(number) => json_of(*value) == Json::Unsigned(number),
            None => !(json_of(*value) is Unsigned),
        },
{
    value.as_u64()
}

/// `Value::as_array`: the elements of a JSON array, `None` for any other
/// value.
#[verifier::external_body]
pub(crate) fn as_list<'a>(value: &'a Value) -> (items: Option<&'a Vec<Value>>)
    ensures
        match items {
            Some(items) => json_of(*value) == Json::List(json_of_each(items@)),
            None => !(json_of(*value) is List),
        },
{
    value.as_array()
}

/// `Value::is_object`: whether the value is a JSON object.
#[verifier::external_body]
pub(crate) fn is_object(value: &Value) -> (yes: bool)
    ensures
        yes == (json_of(*value) is Object),
{
    value.is_object()
}

/// `Value::from` at `&str`: the JSON string with that text.
#[verifier::external_body]
pub(crate) fn text_value(content: &str) -> (value: Value)
    ensures
        json_of(value) == Json::Text(content@),
{
    Value::from(content)
}

/// `Value::from` at `bool`: the JSON boolean with that value.
#[verifier::external_body]
pub(crate) fn flag_value(truth: bool) -> (value: Value)
    ensures
        json_of(value) == Json::Bool(truth),
{
    Value::from(truth)
}

/// `Value::from` at `u64`: the JSON number that is this unsigned integer.
#[verifier::external_body]
pub(crate) fn unsigned_value(number: u64) -> (value: Value)
    ensures
        json_of(value) == Json::Unsigned(number),
{
    Value::from(number)
}

/// `Value::Object` around `serde_json::Map::new`: the object without members.
#[verifier::external_body]
pub(crate) fn empty_object() -> (value: Value)
    ensures
        json_of(value) == Json::empty_object(),
{
    Value::Object(serde_json::Map::new())
}

/// Assignment through `Value::index_mut` with a string key: on an object it
/// stores the member under the key, replacing one already there. It panics
/// on values other than objects and null, which `requires` leaves out.
#[verifier::external_body]
pub(crate) fn set_member(object: &mut Value, key: &str, member: Value)
    requires
        json_of(*old(object)) is Object,
    ensures
        json_of(*final(object)) == json_of(*old(object)).with(key@, json_of(member)),
{
    object[key] = member;
}

/// Reads the string stored under `key` in an object.
pub fn read_text(value: &Value, key: &str) -> (text: Option<String>)
    ensures
        match text {
            Some(text) => json_of(*value).text_at(key@) == Some(text@),
            None => json_of(*value).text_at(key@) is None,
        },
{
    match member(value, key) {
        Some(found) => match as_text(found) {
            Some(text) => Some(text.to_owned()),
            None => None,
        },
        None => None,
    }
}

/// Reads the boolean stored under `key` in an object.
pub fn read_flag(value: &Value, key: &str) -> (flag: Option<bool>)
    ensures
        flag == json_of(*value).flag_at(key@),
{
    match member(value, key) {
        Some(found) => as_flag(found),
        None => None,
    }
}

/// Reads the 32-bit unsigned integer stored under `key` in an object.
pub fn read_count(value: &Value, key: &str) -> (count: Option<u32>)
    ensures
        count == json_of(*value).count_at(key@),
{
    match member(value, key) {
        Some(found) => match as_unsigned(found) {
            Some(number) if number <= u32::MAX as u64 => Some(number as u32),
            _ => None,
        },
        None => None,
    }
}

} // verus!
