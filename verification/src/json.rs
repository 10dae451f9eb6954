//! JSON documents as `serde_json` holds them, and what the library relies on
//! from that crate.
//!
//! [`Json`] is the mathematical model of a document. Everything below the
//! model types is taken on trust from `serde_json`: the verifier reads the
//! contracts of these functions, not their bodies.

use crate::text::signed_decimal;
use vstd::prelude::*;

verus! {

/// A JSON number. `serde_json` keeps an integer from `i64::MIN` to `u64::MAX`
/// exactly; any other number is a finite float, which stands here as the
/// text that the crate writes for it.
pub ghost enum Numeral {
    Integer(int),
    Fraction(Seq<char>),
}

/// A JSON document. An object maps each of its keys to one member.
pub ghost enum Json {
    Null,
    Bool(bool),
    Number(Numeral),
    Text(Seq<char>),
    Array(Seq<Json>),
    Object(Map<Seq<char>, Json>),
}

/// `serde_json::Value`, a JSON document in memory.
#[verifier::external_type_specification]
#[verifier::external_body]
pub struct ExValue(serde_json::Value);

/// `serde_json::Number`, a JSON number in memory.
#[verifier::external_type_specification]
#[verifier::external_body]
pub struct ExNumber(serde_json::Number);

/// `serde_json::Error`, what the crate reports when it cannot read or write.
#[verifier::external_type_specification]
#[verifier::external_body]
pub struct ExError(serde_json::Error);

/// The document that a `serde_json::Value` holds.
pub uninterp spec fn value_model(v: serde_json::Value) -> Json;

/// The number that a `serde_json::Number` holds.
pub uninterp spec fn number_model(n: serde_json::Number) -> Numeral;

/// The document that `serde_json::from_str` reads from `text`, or `None`
/// where it refuses the text.
pub uninterp spec fn parsed(text: Seq<char>) -> Option<Json>;

/// The compact text that `serde_json::to_string` writes for a document.
pub uninterp spec fn rendered(doc: Json) -> Seq<char>;

/// The documents held by a sequence of values, in order.
pub open spec fn value_models(items: Seq<serde_json::Value>) -> Seq<Json> {
    items.map_values(|v: serde_json::Value| value_model(v))
}

/// The member of an object under `key`; `None` for a missing key and for a
/// document that is no object.
pub open spec fn member_of(doc: Json, key: Seq<char>) -> Option<Json> {
    match doc {
        Json::Object(members) => if members.contains_key(key) {
            Some(members[key])
        } else {
            None
        },
        _ => None,
    }
}

/// The value of a document as an unsigned integer, where it is an integer
/// in the range of `u64`.
pub open spec fn unsigned_of(doc: Json) -> Option<u64> {
    match doc {
        Json::Number(Numeral::Integer(i)) => if 0 <= i <= u64::MAX {
            Some(i as u64)
        } else {
            None
        },
        _ => None,
    }
}

/// The value of a document as a signed integer, where it is an integer in
/// the range of `i64`.
pub open spec fn signed_of(doc: Json) -> Option<i64> {
    match doc {
        Json::Number(Numeral::Integer(i)) => if i64::MIN <= i <= i64::MAX {
            Some(i as i64)
        } else {
            None
        },
        _ => None,
    }
}

/// `serde_json::from_str` at the type `Value`. The contract gives its result
/// the name [`parsed`]: the same text always reads as the same document, and
/// the same text is always refused. What the reader refuses is its own
/// affair: among it are texts that are no JSON, and documents nested deeper
/// than it follows.
#[verifier::external_body]
pub(crate) fn parse(text: &str) -> (r: Result<serde_json::Value, serde_json::Error>)
    ensures
        match r {
            Ok(v) => parsed(text@) == Some(value_model(v)),
            Err(_) => parsed(text@) is None,
        },
{
    serde_json::from_str::<serde_json::Value>(text)
}

/// `serde_json::to_string` on a `Value`. The contract gives its result the
/// name [`rendered`], and says that there is one: writing a `Value` into
/// memory does not fail, since its keys are strings and its floats finite.
#[verifier::external_body]
pub(crate) fn render(v: &serde_json::Value) -> (r: Result<String, serde_json::Error>)
    ensures
        match r {
            Ok(text) => text@ == rendered(value_model(*v)),
            Err(_) => false,
        },
{
    serde_json::to_string(v)
}

/// `serde_json::to_string` on an `i64`: the integer in decimal notation, with
/// a minus sign in front of a negative one. Writing an integer into memory
/// does not fail.
#[verifier::external_body]
pub(crate) fn integer_text(n: i64) -> (r: Result<String, serde_json::Error>)
    ensures
        match r {
            Ok(text) => text@ == signed_decimal(n as int),
            Err(_) => false,
        },
{
    serde_json::to_string(&n)
}

/// `Value::get` with a string key: the member of an object under that key,
/// `None` where the key is missing or the value is no object.
#[verifier::external_body]
pub(crate) fn member<'a>(v: &'a serde_json::Value, key: &str) -> (r: Option<&'a serde_json::Value>)
    ensures
        match r {
            Some(m) => member_of(value_model(*v), key@) == Some(value_model(*m)),
            None => member_of(value_model(*v), key@) is None,
        },
{
    v.get(key)
}

/// `Value::is_null`.
#[verifier::external_body]
pub(crate) fn is_null(v: &serde_json::Value) -> (r: bool)
    ensures
        r == (value_model(*v) is Null),
{
    v.is_null()
}

/// `Value::is_object`.
#[verifier::external_body]
pub(crate) fn is_object(v: &serde_json::Value) -> (r: bool)
    ensures
        r == (value_model(*v) is Object),
{
    v.is_object()
}

/// `Value::as_str`: the text of a JSON string, `None` for any other value.
#[verifier::external_body]
pub(crate) fn as_text<'a>(v: &'a serde_json::Value) -> (r: Option<&'a str>)
    ensures
        match r {
            Some(s) => value_model(*v) == Json::Text(s@),
            None => !(value_model(*v) is Text),
        },
{
    v.as_str()
}

/// `Value::as_u64`: the value of an integer that is not negative, `None` for
/// a negative integer, a float and any value that is no number.
#[verifier::external_body]
pub(crate) fn as_unsigned(v: &serde_json::Value) -> (r: Option<u64>)
    ensures
        r == unsigned_of(value_model(*v)),
{
    v.as_u64()
}

/// `Value::as_i64`: the value of an integer that fits `i64`, `None` for a
/// larger integer, a float and any value that is no number.
#[verifier::external_body]
pub(crate) fn as_signed(v: &serde_json::Value) -> (r: Option<i64>)
    ensures
        r == signed_of(value_model(*v)),
{
    v.as_i64()
}

/// `Value::as_number`, with a copy of the number made by `Number::clone`:
/// the number of a JSON number, `None` for any other value.
#[verifier::external_body]
pub(crate) fn as_number(v: &serde_json::Value) -> (r: Option<serde_json::Number>)
    ensures
        match r {
            Some(n) => value_model(*v) == Json::Number(number_model(n)),
            None => !(value_model(*v) is Number),
        },
{
    v.as_number().cloned()
}

/// `Value::as_array`: the elements of a JSON array, `None` for any other
/// value.
#[verifier::external_body]
pub(crate) fn as_elements<'a>(v: &'a serde_json::Value) -> (r: Option<&'a Vec<serde_json::Value>>)
    ensures
        match r {
            Some(items) => value_model(*v) == Json::Array(value_models(items@)),
            None => !(value_model(*v) is Array),
        },
{
    v.as_array()
}

/// `Value::from` on a string slice: the JSON string with that text.
#[verifier::external_body]
pub(crate) fn text_value(s: &str) -> (v: serde_json::Value)
    ensures
        value_model(v) == Json::Text(s@),
{
    serde_json::Value::from(s)
}

/// `Value::from` on a `u64`: the JSON number with that value.
#[verifier::external_body]
pub(crate) fn unsigned_value(n: u64) -> (v: serde_json::Value)
    ensures
        value_model(v) == Json::Number(Numeral::Integer(n as int)),
{
    serde_json::Value::from(n)
}

/// `Value::from` on an `i64`: the JSON number with that value.
#[verifier::external_body]
pub(crate) fn signed_value(i: i64) -> (v: serde_json::Value)
    ensures
        value_model(v) == Json::Number(Numeral::Integer(i as int)),
{
    serde_json::Value::from(i)
}

/// `Value::from` on a copy of a `Number`, made by `Number::clone`: the JSON
/// number that holds it.
#[verifier::external_body]
pub(crate) fn number_value(n: &serde_json::Number) -> (v: serde_json::Value)
    ensures
        value_model(v) == Json::Number(number_model(*n)),
{
    serde_json::Value::from(n.clone())
}

/// `Value::from` on a vector of values: the JSON array of these elements.
#[verifier::external_body]
pub(crate) fn array_value(items: Vec<serde_json::Value>) -> (v: serde_json::Value)
    ensures
        value_model(v) == Json::Array(value_models(items@)),
{
    serde_json::Value::from(items)
}

/// `Value::Object` on `Map::new()`: the JSON object without members.
#[verifier::external_body]
pub(crate) fn empty_object() -> (v: serde_json::Value)
    ensures
        value_model(v) == Json::Object(Map::<Seq<char>, Json>::empty()),
{
    serde_json::Value::Object(serde_json::Map::new())
}

/// `Map::insert` on the members of an object: the member under `key` becomes `member`, whether
/// or not the key was there, and the other members stay.
#[verifier::external_body]
pub(crate) fn insert_member(obj: &mut serde_json::Value, key: &str, member: serde_json::Value)
    requires
        value_model(*old(obj)) is Object,
    ensures
        value_model(*final(obj)) == Json::Object(
            value_model(*old(obj))->Object_0.insert(key@, value_model(member)),
        ),
{
    if let serde_json::Value::Object(members) = obj {
        members.insert(key.to_owned(), member);
    }
}

} // verus!
