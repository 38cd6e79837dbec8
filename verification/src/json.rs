//! The dynamically typed property value.
//!
//! Property values are JSON documents (`serde_json::Value`): boolean, number,
//! string, array, object or null.  This layer never looks inside a value — it
//! stores values, moves them between snapshots and reactive cells verbatim,
//! and delegates type coercion to the value's own accessors.

use vstd::prelude::*;

verus! {

/// `serde_json::Value` carried through the instance layer as an opaque value.
#[verifier::external_type_specification]
#[verifier::external_body]
pub struct ExValue(serde_json::Value);

/// `serde_json::Map`, the object form of a JSON value.
#[verifier::external_type_specification]
#[verifier::external_body]
#[verifier::reject_recursive_types(K)]
#[verifier::reject_recursive_types(V)]
pub struct ExJsonMap<K, V>(serde_json::Map<K, V>);

/// Relies on `serde_json::Value::clone`: the clone is the same value.
pub assume_specification[ <serde_json::Value as Clone>::clone ](
    v: &serde_json::Value,
) -> (r: serde_json::Value)
    ensures
        r == *v,
;

/// The boolean a value coerces to, if it is a boolean: a function of the
/// value alone.
pub uninterp spec fn value_as_bool(v: serde_json::Value) -> Option<bool>;

/// The unsigned integer a value coerces to, if it is one: a function of the
/// value alone.
pub uninterp spec fn value_as_u64(v: serde_json::Value) -> Option<u64>;

/// The signed integer a value coerces to, if it is one: a function of the
/// value alone.
pub uninterp spec fn value_as_i64(v: serde_json::Value) -> Option<i64>;

/// The character content of a value, if it is a string: a function of the
/// value alone.
pub uninterp spec fn value_as_str(v: serde_json::Value) -> Option<Seq<char>>;

/// The elements of a value, if it is an array: a function of the value
/// alone.
pub uninterp spec fn value_as_array(v: serde_json::Value) -> Option<Seq<serde_json::Value>>;

/// The member map of a value, if it is an object: a function of the value
/// alone.
pub uninterp spec fn value_as_object(v: serde_json::Value) -> Option<
    serde_json::Map<String, serde_json::Value>,
>;

/// Relies on `serde_json::Value::as_bool`: the boolean a value coerces to,
/// if any; the result depends on the value alone.
pub assume_specification[ serde_json::Value::as_bool ](v: &serde_json::Value) -> (r: Option<bool>)
    ensures
        r == value_as_bool(*v),
;

/// Relies on `serde_json::Value::as_u64`: the unsigned integer a value
/// coerces to, if any; the result depends on the value alone.
pub assume_specification[ serde_json::Value::as_u64 ](v: &serde_json::Value) -> (r: Option<u64>)
    ensures
        r == value_as_u64(*v),
;

/// Relies on `serde_json::Value::as_i64`: the signed integer a value coerces
/// to, if any; the result depends on the value alone.
pub assume_specification[ serde_json::Value::as_i64 ](v: &serde_json::Value) -> (r: Option<i64>)
    ensures
        r == value_as_i64(*v),
;

/// Relies on `serde_json::Value::as_str`: the borrowed string content of a
/// string value, if any; the result depends on the value alone.
pub assume_specification<'a>[ serde_json::Value::as_str ](v: &'a serde_json::Value) -> (r: Option<
    &'a str,
>)
    ensures
        match r {
            Some(s) => value_as_str(*v) == Some(s@),
            None => value_as_str(*v) is None,
        },
;

/// Relies on `serde_json::Value::as_array`: the borrowed element vector of an
/// array value, if any; the result depends on the value alone.
pub assume_specification<'a>[ serde_json::Value::as_array ](v: &'a serde_json::Value) -> (r: Option<
    &'a Vec<serde_json::Value>,
>)
    ensures
        match r {
            Some(a) => value_as_array(*v) == Some(a@),
            None => value_as_array(*v) is None,
        },
;

/// Relies on `serde_json::Value::as_object`: the borrowed member map of an
/// object value, if any; the result depends on the value alone.
pub assume_specification<'a>[ serde_json::Value::as_object ](v: &'a serde_json::Value) -> (r:
    Option<&'a serde_json::Map<String, serde_json::Value>>)
    ensures
        match r {
            Some(m) => value_as_object(*v) == Some(*m),
            None => value_as_object(*v) is None,
        },
;

/// Relies on `serde_json::Map::clone`: the clone is the same map.
pub assume_specification[ <serde_json::Map<String, serde_json::Value> as Clone>::clone ](
    m: &serde_json::Map<String, serde_json::Value>,
) -> (r: serde_json::Map<String, serde_json::Value>)
    ensures
        r == *m,
;

} // verus!
