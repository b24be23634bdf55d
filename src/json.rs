//! The JSON documents of response bodies, as `serde_json` reads them.
//!
//! A document is an opaque `serde_json::Value`; what the engine learns of it
//! comes through the few accessors below, each named by a spec function.
use vstd::prelude::*;

verus! {

#[verifier::external_type_specification]
#[verifier::external_body]
pub struct ExValue(serde_json::Value);

/// The document that `bytes` hold, or `None` where they are not JSON.
pub uninterp spec fn json_document(bytes: Seq<u8>) -> Option<serde_json::Value>;

/// The member called `name` of an object; `None` for a missing member or a non-object.
pub uninterp spec fn json_member(v: serde_json::Value, name: Seq<char>) -> Option<
    serde_json::Value,
>;

/// The text of a JSON string; `None` for any other kind of value.
pub uninterp spec fn json_str(v: serde_json::Value) -> Option<Seq<char>>;

/// The value of a JSON number that is an integer in the range of `i64`; `None` otherwise.
pub uninterp spec fn json_i64(v: serde_json::Value) -> Option<i64>;

/// The elements of a JSON array; `None` for any other kind of value.
pub uninterp spec fn json_array(v: serde_json::Value) -> Option<Seq<serde_json::Value>>;

/// The `Debug` rendering of a document, used to echo it in diagnostics.
pub uninterp spec fn json_debug(v: serde_json::Value) -> Seq<char>;

/// Relies on `serde_json::from_slice`: it reads one document from the bytes, or fails.
#[verifier::external_body]
pub(crate) fn parse_document(bytes: &[u8]) -> (r: Option<serde_json::Value>)
    ensures
        r == json_document(bytes@),
{
    serde_json::from_slice::<serde_json::Value>(bytes).ok()
}

/// Relies on `serde_json::Value::get` with a `&str` index: an object's member of that name.
#[verifier::external_body]
pub(crate) fn member<'a>(v: &'a serde_json::Value, name: &str) -> (r: Option<&'a serde_json::Value>)
    ensures
        match r {
            Some(m) => json_member(*v, name@) == Some(*m),
            None => json_member(*v, name@) is None,
        },
{
    v.get(name)
}

/// Relies on `serde_json::Value::as_str`: the text of a string value.
pub assume_specification[ serde_json::Value::as_str ](v: &serde_json::Value) -> (r: Option<&str>)
    ensures
        match r {
            Some(s) => json_str(*v) == Some(s@),
            None => json_str(*v) is None,
        },
;

/// Relies on `serde_json::Value::as_i64`: an integer number that fits in `i64`.
pub assume_specification[ serde_json::Value::as_i64 ](v: &serde_json::Value) -> (r: Option<i64>)
    ensures
        r == json_i64(*v),
;

/// Relies on `serde_json::Value::as_array`: the elements of an array value.
pub assume_specification[ serde_json::Value::as_array ](v: &serde_json::Value) -> (r: Option<
    &Vec<serde_json::Value>,
>)
    ensures
        match r {
            Some(a) => json_array(*v) == Some(a@),
            None => json_array(*v) is None,
        },
;

/// Relies on the `Debug` impl of `serde_json::Value`.
#[verifier::external_body]
pub(crate) fn debug_text(v: &serde_json::Value) -> (r: String)
    ensures
        r@ == json_debug(*v),
{
    format!("{:?}", v)
}

} // verus!
