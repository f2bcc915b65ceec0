//! The trusted boundary to `serde_json`: the reply body is parsed by that
//! crate, and the verified decoding logic walks the resulting value through
//! the accessors declared here.
//!
//! Each uninterpreted name below stands for what one `serde_json` function
//! returns; every one of them is a function of its arguments alone.

use vstd::prelude::*;

verus! {

/// Declares `serde_json::Value` so parsed replies can stand in signatures;
/// the value is opaque, and only the accessors below read it.
#[verifier::external_type_specification]
#[verifier::external_body]
pub struct ExValue(serde_json::Value);

/// What `serde_json::from_str::<Value>` makes of a body text: the parsed
/// value, or nothing when the text is not JSON.
pub uninterp spec fn doc_of(s: Seq<char>) -> Option<serde_json::Value>;

/// What `serde_json::Value::get` finds under a string key: the member of an
/// object, or nothing when the value is no object or has no such member.
pub uninterp spec fn member_of(v: serde_json::Value, key: Seq<char>) -> Option<serde_json::Value>;

/// What `serde_json::Value::as_str` returns: the characters of a string
/// value, nothing for any other value.
pub uninterp spec fn str_of(v: serde_json::Value) -> Option<Seq<char>>;

/// What `serde_json::Value::as_i64` returns: the integer a number value
/// holds, nothing for a non-number or an unrepresentable number.
pub uninterp spec fn int_of(v: serde_json::Value) -> Option<i64>;

/// What `serde_json::Value::as_bool` returns: the boolean a boolean value
/// holds, nothing for any other value.
pub uninterp spec fn bool_of(v: serde_json::Value) -> Option<bool>;

/// What `serde_json::Value::is_null` returns: whether the value is null.
pub uninterp spec fn null_of(v: serde_json::Value) -> bool;

/// What `serde_json::Value::is_number` returns: whether the value is a
/// number.
pub uninterp spec fn number_of(v: serde_json::Value) -> bool;

/// What `serde_json::Value::as_array` returns: the elements of an array
/// value, nothing for any other value.
pub uninterp spec fn elems_of(v: serde_json::Value) -> Option<Seq<serde_json::Value>>;

/// What serializing a value back to text yields.
pub uninterp spec fn text_of(v: serde_json::Value) -> Seq<char>;

pub assume_specification[ serde_json::Value::as_str ](v: &serde_json::Value) -> (r: Option<&str>)
    ensures
        (match r {
            Some(s) => str_of(*v) == Some(s@),
            None => str_of(*v) is None,
        }),
;

pub assume_specification[ serde_json::Value::as_i64 ](v: &serde_json::Value) -> (r: Option<i64>)
    ensures
        r == int_of(*v),
;

pub assume_specification[ serde_json::Value::as_bool ](v: &serde_json::Value) -> (r: Option<bool>)
    ensures
        r == bool_of(*v),
;

pub assume_specification[ serde_json::Value::is_null ](v: &serde_json::Value) -> (r: bool)
    ensures
        r == null_of(*v),
;

pub assume_specification[ serde_json::Value::is_number ](v: &serde_json::Value) -> (r: bool)
    ensures
        r == number_of(*v),
;

pub assume_specification[ serde_json::Value::as_array ](v: &serde_json::Value) -> (r: Option<
    &Vec<serde_json::Value>,
>)
    ensures
        (match r {
            Some(a) => elems_of(*v) == Some(a@),
            None => elems_of(*v) is None,
        }),
;

/// Relies on `serde_json::from_str::<Value>`: `Some` exactly when the text
/// is well-formed JSON, and then the parsed value.
#[verifier::external_body]
pub(crate) fn parse_document(s: &str) -> (r: Option<serde_json::Value>)
    ensures
        r == doc_of(s@),
{
    match serde_json::from_str::<serde_json::Value>(s) {
        Ok(v) => Some(v),
        Err(_) => None,
    }
}

/// Relies on `serde_json::Value::get` with a string index: object member
/// lookup by key.
#[verifier::external_body]
pub(crate) fn get_member<'a>(v: &'a serde_json::Value, key: &str) -> (r: Option<
    &'a serde_json::Value,
>)
    ensures
        (match r {
            Some(m) => member_of(*v, key@) == Some(*m),
            None => member_of(*v, key@) is None,
        }),
{
    v.get(key)
}

/// Relies on `serde_json`'s `Display` for `Value`: the value serialized
/// back to JSON text.
#[verifier::external_body]
pub(crate) fn value_text(v: &serde_json::Value) -> (r: String)
    ensures
        r@ == text_of(*v),
{
    v.to_string()
}

} // verus!
