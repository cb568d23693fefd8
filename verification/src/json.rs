//! Trusted boundary to the JSON support: type declarations, names for
//! what its functions return, and thin wrappers. Every result below is a
//! function of its arguments alone (the document map is ordered, so even
//! entry order is), so each gets a name, and the shape checks in the
//! roster module are verified against those names.

use vstd::prelude::*;
use vstd::utf8::{decode_utf8, valid_utf8};

verus! {

#[verifier::external_type_specification]
#[verifier::external_body]
pub struct ExValue(serde_json::Value);

#[verifier::external_type_specification]
#[verifier::external_body]
pub struct ExJsonError(serde_json::Error);

#[verifier::external_type_specification]
#[verifier::external_body]
#[verifier::reject_recursive_types(K)]
#[verifier::reject_recursive_types(V)]
pub struct ExJsonMap<K, V>(serde_json::Map<K, V>);

/// Whether a text is a well-formed JSON document.
pub uninterp spec fn json_ok(s: Seq<char>) -> bool;

/// The document a well-formed text parses to.
pub uninterp spec fn json_doc(s: Seq<char>) -> serde_json::Value;

/// The member a JSON value holds under a key: `Some` exactly when the
/// value is an object with that key.
pub uninterp spec fn member_of(v: serde_json::Value, key: Seq<char>) -> Option<serde_json::Value>;

/// The entry map of a JSON value: `Some` exactly when it is an object.
pub uninterp spec fn object_of(v: serde_json::Value) -> Option<
    serde_json::Map<String, serde_json::Value>,
>;

/// The elements of a JSON value: `Some` exactly when it is an array.
pub uninterp spec fn array_of(v: serde_json::Value) -> Option<Seq<serde_json::Value>>;

/// The text of a JSON value: `Some` exactly when it is a string.
pub uninterp spec fn string_of(v: serde_json::Value) -> Option<Seq<char>>;

/// The flag of a JSON value: `Some` exactly when it is a boolean.
pub uninterp spec fn bool_of(v: serde_json::Value) -> Option<bool>;

/// Whether a JSON value is the JSON null.
pub uninterp spec fn is_null_value(v: serde_json::Value) -> bool;

/// The key/value entries of a JSON object, in the map's own order.
pub uninterp spec fn entries_of(m: serde_json::Map<String, serde_json::Value>) -> Seq<
    (String, serde_json::Value),
>;

/// Relies on str::from_utf8: it succeeds exactly on valid UTF-8 input
/// and returns the decoded string.
#[verifier::external_body]
pub(crate) fn str_from_bytes(b: &[u8]) -> (r: Option<&str>)
    ensures
        r is Some <==> valid_utf8(b@),
        r matches Some(s) ==> s@ == decode_utf8(b@),
{
    match core::str::from_utf8(b) {
        Ok(s) => Some(s),
        Err(_) => None,
    }
}

/// Relies on serde_json::from_str::<Value>: it parses exactly the
/// well-formed JSON documents, and its result depends on the text alone.
#[verifier::external_body]
pub(crate) fn json_from_str(s: &str) -> (r: Result<serde_json::Value, serde_json::Error>)
    ensures
        r is Ok <==> json_ok(s@),
        r matches Ok(v) ==> v == json_doc(s@),
{
    serde_json::from_str(s)
}

/// Relies on serde_json::Value::get with a string index: the value under
/// that key when `v` is an object holding it, `None` otherwise.
#[verifier::external_body]
pub(crate) fn value_get<'a>(v: &'a serde_json::Value, key: &str) -> (r: Option<
    &'a serde_json::Value,
>)
    ensures
        r is Some <==> member_of(*v, key@) is Some,
        r matches Some(m) ==> member_of(*v, key@) == Some(*m),
{
    v.get(key)
}

/// Relies on serde_json::Value::as_object: the map when `v` is an object.
pub assume_specification[ serde_json::Value::as_object ](v: &serde_json::Value) -> (r: Option<
    &serde_json::Map<String, serde_json::Value>,
>)
    ensures
        r is Some <==> object_of(*v) is Some,
        r matches Some(m) ==> object_of(*v) == Some(*m),
;

/// Relies on serde_json::Value::as_array: the elements when `v` is an array.
pub assume_specification[ serde_json::Value::as_array ](v: &serde_json::Value) -> (r: Option<
    &Vec<serde_json::Value>,
>)
    ensures
        r is Some <==> array_of(*v) is Some,
        r matches Some(a) ==> array_of(*v) == Some(a@),
;

/// Relies on serde_json::Value::as_str: the text when `v` is a string.
pub assume_specification[ serde_json::Value::as_str ](v: &serde_json::Value) -> (r: Option<&str>)
    ensures
        r is Some <==> string_of(*v) is Some,
        r matches Some(s) ==> string_of(*v) == Some(s@),
;

/// Relies on serde_json::Value::as_bool: the flag when `v` is a boolean.
pub assume_specification[ serde_json::Value::as_bool ](v: &serde_json::Value) -> (r: Option<bool>)
    ensures
        r == bool_of(*v),
;

/// Relies on serde_json::Value::is_null: whether `v` is the JSON null.
pub assume_specification[ serde_json::Value::is_null ](v: &serde_json::Value) -> (r: bool)
    ensures
        r == is_null_value(*v),
;

/// Relies on serde_json::Map::iter: it yields every entry of the object,
/// in the map's order; the entries are cloned into a plain vector.
#[verifier::external_body]
pub(crate) fn object_entries(m: &serde_json::Map<String, serde_json::Value>) -> (r: Vec<
    (String, serde_json::Value),
>)
    ensures
        r@ == entries_of(*m),
{
    m.iter().map(|(k, v)| (k.clone(), v.clone())).collect()
}

} // verus!
