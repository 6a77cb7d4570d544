//! A mathematical model of parsed JSON documents, and trusted access to the
//! `serde_json` parser that produces them.
//!
//! The parser itself is outside code; the library never re-implements it.
//! Instead, `json_of` names the (deterministic) result of parsing a string,
//! `value_model` names the document held by a `serde_json::Value`, and small
//! trusted wrappers tie the two names to the real calls. Everything that
//! inspects the shape of a document is verified code built on these wrappers.

use vstd::prelude::*;

verus! {

/// Model of one JSON value.
///
/// Numbers are split by what the relay can consume: `IntNum` is a number that
/// is exactly representable as an `i64` (`serde_json` stores such numbers as
/// signed or unsigned integers and `Number::as_i64` succeeds on them);
/// `OtherNum` is any other number (a float, or an unsigned integer above
/// `i64::MAX`), which the relay's command shape rejects.
pub enum Json {
    Null,
    Bool(bool),
    IntNum(i64),
    OtherNum,
    Text(Seq<char>),
    Arr(Seq<Json>),
    Obj(Map<Seq<char>, Json>),
}

#[verifier::external_type_specification]
#[verifier::external_body]
pub struct ExValue(serde_json::Value);

/// The document that parsing `s` yields: `None` when `s` is not well-formed
/// JSON. Uninterpreted name for the result of `serde_json::from_str::<Value>`,
/// which depends on the input string alone.
pub uninterp spec fn json_of(s: Seq<char>) -> Option<Json>;

/// The document held by a `serde_json::Value`. Uninterpreted name for the
/// contents of the opaque parsed tree; every trusted wrapper below speaks of
/// the tree through it.
pub uninterp spec fn value_model(v: serde_json::Value) -> Json;

/// Relies on `serde_json::from_str::<Value>`: parses a complete JSON document,
/// returning an error exactly on malformed input. Parsing is a pure function
/// of the input text.
#[verifier::external_body]
pub(crate) fn parse_json(s: &str) -> (r: Option<serde_json::Value>)
    ensures
        r is Some <==> json_of(s@) is Some,
        r is Some ==> value_model(r->0) == json_of(s@)->0,
{
    serde_json::from_str::<serde_json::Value>(s).ok()
}

/// Relies on `serde_json::Value::as_array`: returns the element vector when
/// the value is an array and `None` otherwise.
#[verifier::external_body]
pub(crate) fn value_as_array(v: &serde_json::Value) -> (r: Option<&Vec<serde_json::Value>>)
    ensures
        r is Some <==> value_model(*v) is Arr,
        r matches Some(items) ==> items@.len() == value_model(*v)->Arr_0.len(),
        r matches Some(items) ==> forall|i: int|
            0 <= i < items@.len() ==> #[trigger] value_model(items@[i]) == value_model(*v)->Arr_0[i],
{
    v.as_array()
}

/// Relies on `serde_json::Value::get` with a string index: looks the key up
/// when the value is an object, and returns `None` when the value is not an
/// object or the key is absent.
#[verifier::external_body]
pub(crate) fn value_get<'a>(v: &'a serde_json::Value, key: &str) -> (r: Option<&'a serde_json::Value>)
    ensures
        r is Some <==> (value_model(*v) is Obj && value_model(*v)->Obj_0.contains_key(key@)),
        r matches Some(f) ==> value_model(*f) == value_model(*v)->Obj_0[key@],
{
    v.get(key)
}

/// Relies on `serde_json::Value::as_i64`: returns the number when the value
/// is a number exactly representable as an `i64`, and `None` otherwise.
#[verifier::external_body]
pub(crate) fn value_as_i64(v: &serde_json::Value) -> (r: Option<i64>)
    ensures
        r == (if value_model(*v) is IntNum {
            Some(value_model(*v)->IntNum_0)
        } else {
            None::<i64>
        }),
{
    v.as_i64()
}

/// Relies on `serde_json::Value::as_str`: returns the string when the value
/// is a JSON string, and `None` otherwise.
#[verifier::external_body]
pub(crate) fn value_as_str<'a>(v: &'a serde_json::Value) -> (r: Option<&'a str>)
    ensures
        r is Some <==> value_model(*v) is Text,
        r matches Some(s) ==> s@ == value_model(*v)->Text_0,
{
    v.as_str()
}

/// Relies on `serde_json::Value::is_null`: tells the `Null` variant apart
/// from every other one.
#[verifier::external_body]
pub(crate) fn value_is_null(v: &serde_json::Value) -> (r: bool)
    ensures
        r == (value_model(*v) is Null),
{
    v.is_null()
}

} // verus!
