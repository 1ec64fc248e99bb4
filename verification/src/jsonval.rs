//! Ghost model of parsed JSON documents, and the trusted bridge to
//! `serde_json` that parses response bytes and reads parsed values.

use vstd::prelude::*;

verus! {

/// What a parsed JSON value holds, as mathematical data. An integer number
/// is modelled exactly; a number that is not an integer is modelled only by
/// its kind, since none of this crate's logic reads one.
pub enum JsonSpec {
    Null,
    Bool(bool),
    Num(int),
    NonIntNum,
    Str(Seq<char>),
    Arr(Seq<JsonSpec>),
    Obj(Map<Seq<char>, JsonSpec>),
}

#[verifier::external_type_specification]
#[verifier::external_body]
pub struct ExValue(serde_json::Value);

/// The contents of a parsed `serde_json::Value`, as a [`JsonSpec`].
pub uninterp spec fn value_model(v: serde_json::Value) -> JsonSpec;

/// What parsing a byte sequence as one JSON document yields: the document's
/// model, or nothing when the bytes are not a valid document. Parsing is a
/// function of the bytes alone.
pub uninterp spec fn json_parse(b: Seq<u8>) -> Option<JsonSpec>;

/// Relies on `serde_json::from_slice::<Value>`: parsing depends on the
/// input bytes alone, and fails exactly on input that is not one valid
/// JSON document.
#[verifier::external_body]
pub(crate) fn parse_json(b: &[u8]) -> (r: Option<serde_json::Value>)
    ensures
        match r {
            Some(v) => json_parse(b@) == Some(value_model(v)),
            None => json_parse(b@) is None,
        },
{
    match serde_json::from_slice::<serde_json::Value>(b) {
        Ok(v) => Some(v),
        Err(_) => None,
    }
}

/// Relies on `serde_json::Value::get` with a string index: on an object it
/// yields the value under the key; on a missing key or any non-object it
/// yields nothing.
#[verifier::external_body]
pub(crate) fn v_get<'a>(v: &'a serde_json::Value, key: &str) -> (r: Option<
    &'a serde_json::Value,
>)
    ensures
        match r {
            Some(f) => value_model(*v) is Obj && value_model(*v)->Obj_0.contains_key(key@)
                && value_model(*f) == value_model(*v)->Obj_0[key@],
            None => !(value_model(*v) is Obj) || !value_model(*v)->Obj_0.contains_key(key@),
        },
{
    v.get(key)
}

/// Relies on `serde_json::Value::as_bool`: a boolean value yields its
/// truth value; everything else yields nothing.
#[verifier::external_body]
pub(crate) fn v_as_bool(v: &serde_json::Value) -> (r: Option<bool>)
    ensures
        r == (match value_model(*v) {
            JsonSpec::Bool(b) => Some(b),
            _ => None::<bool>,
        }),
{
    v.as_bool()
}

/// Relies on `serde_json::Value::as_i64`: an integer number that fits in
/// an `i64` yields that integer; everything else yields nothing.
#[verifier::external_body]
pub(crate) fn v_as_i64(v: &serde_json::Value) -> (r: Option<i64>)
    ensures
        r == (match value_model(*v) {
            JsonSpec::Num(n) => if i64::MIN <= n <= i64::MAX {
                Some(n as i64)
            } else {
                None::<i64>
            },
            _ => None::<i64>,
        }),
{
    v.as_i64()
}

/// Relies on `serde_json::Value::as_u64`: a non-negative integer number
/// that fits in a `u64` yields that integer; everything else yields
/// nothing.
#[verifier::external_body]
pub(crate) fn v_as_u64(v: &serde_json::Value) -> (r: Option<u64>)
    ensures
        r == (match value_model(*v) {
            JsonSpec::Num(n) => if 0 <= n <= u64::MAX {
                Some(n as u64)
            } else {
                None::<u64>
            },
            _ => None::<u64>,
        }),
{
    v.as_u64()
}

/// Relies on `serde_json::Value::as_str`: a string value yields its
/// characters; everything else yields nothing.
#[verifier::external_body]
pub(crate) fn v_as_str<'a>(v: &'a serde_json::Value) -> (r: Option<&'a str>)
    ensures
        match r {
            Some(s) => value_model(*v) is Str && s@ == value_model(*v)->Str_0,
            None => !(value_model(*v) is Str),
        },
{
    v.as_str()
}

/// Relies on `serde_json::Value::as_array`: an array value yields its
/// elements in order; everything else yields nothing.
#[verifier::external_body]
pub(crate) fn v_as_array<'a>(v: &'a serde_json::Value) -> (r: Option<&'a Vec<serde_json::Value>>)
    ensures
        match r {
            Some(a) => value_model(*v) is Arr && a@.len() == value_model(*v)->Arr_0.len()
                && (forall|i: int|
                0 <= i < a@.len() ==> value_model(#[trigger] a@[i]) == value_model(*v)->Arr_0[i]),
            None => !(value_model(*v) is Arr),
        },
{
    v.as_array()
}

/// Relies on `serde_json::Value`'s `Clone`: the copy is structurally equal
/// to the original, so it holds the same contents.
#[verifier::external_body]
pub(crate) fn v_clone(v: &serde_json::Value) -> (r: serde_json::Value)
    ensures
        value_model(r) == value_model(*v),
{
    v.clone()
}

} // verus!
