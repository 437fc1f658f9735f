//! The boundary to `serde_json`: its value types, a mathematical reading of
//! them, and the contracts that the schema code assumes of the functions it
//! calls there. Nothing in this file is proved; everything else in the crate is
//! proved from it.

use vstd::prelude::*;

verus! {

/// `serde_json::Value`, carried as an opaque value.
#[verifier::external_type_specification]
#[verifier::external_body]
pub struct ExValue(serde_json::Value);

/// `serde_json::Map`, carried as an opaque value.
#[verifier::external_type_specification]
#[verifier::external_body]
#[verifier::reject_recursive_types(K)]
#[verifier::reject_recursive_types(V)]
pub struct ExMap<K, V>(serde_json::Map<K, V>);

/// `serde_json::Error`, carried as an opaque value.
#[verifier::external_type_specification]
#[verifier::external_body]
pub struct ExError(serde_json::Error);

/// The entries of a JSON object: its values by key.
pub type JsonEntries = Map<Seq<char>, serde_json::Value>;

/// One level of a JSON value: which variant it is and what that variant holds.
pub enum JsonShape {
    /// `null`.
    Null,
    /// `true` or `false`.
    Bool(bool),
    /// A number that is a non-negative integer below 2^64.
    Unsigned(u64),
    /// Any other number: a negative integer or a fraction.
    OtherNumber,
    /// A string, by its characters.
    String(Seq<char>),
    /// An array, by its elements in order.
    Array(Seq<serde_json::Value>),
    /// An object, by its entries.
    Object(JsonEntries),
}

/// What the JSON value `v` holds: its variant and that variant's payload.
pub uninterp spec fn json_shape(v: serde_json::Value) -> JsonShape;

/// The entries that the object `m` holds.
pub uninterp spec fn map_entries(m: serde_json::Map<String, serde_json::Value>) -> JsonEntries;

/// The value that `serde_json::from_str` reads from `text`, `None` where it
/// reports an error.
pub uninterp spec fn parsed_json(text: Seq<char>) -> Option<serde_json::Value>;

/// The compact text that `serde_json` writes for `v`.
pub uninterp spec fn json_text(v: serde_json::Value) -> Seq<char>;

/// `Value::Bool`: the JSON boolean `b`.
#[verifier::external_body]
pub(crate) fn value_bool(b: bool) -> (r: serde_json::Value)
    ensures
        json_shape(r) == JsonShape::Bool(b),
{
    serde_json::Value::Bool(b)
}

/// `Value::from` on a `u16`: the JSON number `n`, held as a non-negative
/// integer.
#[verifier::external_body]
pub(crate) fn value_u16(n: u16) -> (r: serde_json::Value)
    ensures
        json_shape(r) == JsonShape::Unsigned(n as u64),
{
    serde_json::Value::from(n)
}

/// `Value::String`: the JSON string with the characters of `s`.
#[verifier::external_body]
pub(crate) fn value_string(s: String) -> (r: serde_json::Value)
    ensures
        json_shape(r) == JsonShape::String(s@),
{
    serde_json::Value::String(s)
}

/// `Value::Array`: the JSON array with the elements of `items`, in order.
#[verifier::external_body]
pub(crate) fn value_array(items: Vec<serde_json::Value>) -> (r: serde_json::Value)
    ensures
        json_shape(r) == JsonShape::Array(items@),
{
    serde_json::Value::Array(items)
}

/// `Value::Object`: the JSON object with the entries of `m`.
#[verifier::external_body]
pub(crate) fn value_object(m: serde_json::Map<String, serde_json::Value>) -> (r: serde_json::Value)
    ensures
        json_shape(r) == JsonShape::Object(map_entries(m)),
{
    serde_json::Value::Object(m)
}

/// `Value::is_null`: whether the value is JSON `null`.
pub assume_specification[ serde_json::Value::is_null ](v: &serde_json::Value) -> (r: bool)
    ensures
        r == (json_shape(*v) is Null),
;

/// `Value::as_bool`: the boolean of a JSON boolean, `None` for any other
/// variant.
pub assume_specification[ serde_json::Value::as_bool ](v: &serde_json::Value) -> (r: Option<bool>)
    ensures
        r == (match json_shape(*v) {
            JsonShape::Bool(b) => Some(b),
            _ => None,
        }),
;

/// `Value::as_u64`: the integer of a number held as a non-negative integer,
/// `None` for any other number and any other variant.
pub assume_specification[ serde_json::Value::as_u64 ](v: &serde_json::Value) -> (r: Option<u64>)
    ensures
        r == (match json_shape(*v) {
            JsonShape::Unsigned(n) => Some(n),
            _ => None,
        }),
;

/// `Value::as_str`: the characters of a JSON string, `None` for any other
/// variant.
pub assume_specification[ serde_json::Value::as_str ](v: &serde_json::Value) -> (r: Option<&str>)
    ensures
        match r {
            Some(s) => json_shape(*v) == JsonShape::String(s@),
            None => !(json_shape(*v) is String),
        },
;

/// `Value::as_array`: the elements of a JSON array, `None` for any other
/// variant.
pub assume_specification[ serde_json::Value::as_array ](v: &serde_json::Value) -> (r: Option<&Vec<serde_json::Value>>)
    ensures
        match r {
            Some(items) => json_shape(*v) == JsonShape::Array(items@),
            None => !(json_shape(*v) is Array),
        },
;

/// `Value::as_object`: the map of a JSON object, `None` for any other variant.
pub assume_specification[ serde_json::Value::as_object ](v: &serde_json::Value) -> (r: Option<&serde_json::Map<String, serde_json::Value>>)
    ensures
        match r {
            Some(m) => json_shape(*v) == JsonShape::Object(map_entries(*m)),
            None => !(json_shape(*v) is Object),
        },
;

/// `Clone` for `Value`: the copy is the same JSON value.
pub assume_specification[ <serde_json::Value as Clone>::clone ](v: &serde_json::Value) -> (r: serde_json::Value)
    ensures
        r == *v,
;

/// `Map::new`: an object without entries.
pub assume_specification[ serde_json::Map::<String, serde_json::Value>::new ]() -> (r: serde_json::Map<String, serde_json::Value>)
    ensures
        map_entries(r) == JsonEntries::empty(),
;

/// `Clone` for `Map`: the copy holds the same entries.
pub assume_specification[ <serde_json::Map<String, serde_json::Value> as Clone>::clone ](m: &serde_json::Map<String, serde_json::Value>) -> (r: serde_json::Map<String, serde_json::Value>)
    ensures
        map_entries(r) == map_entries(*m),
;

/// `Map::insert`: sets the entry for `k`, leaves every other entry as it was,
/// and returns the value that `k` had before.
pub assume_specification[ serde_json::Map::<String, serde_json::Value>::insert ](m: &mut serde_json::Map<String, serde_json::Value>, k: String, v: serde_json::Value) -> (r: Option<serde_json::Value>)
    ensures
        map_entries(*final(m)) == map_entries(*old(m)).insert(k@, v),
        r == (if map_entries(*old(m)).contains_key(k@) {
            Some(map_entries(*old(m))[k@])
        } else {
            None
        }),
;

/// `Map::get` with a `&str` key: the value stored under `key`, if any.
#[verifier::external_body]
pub(crate) fn map_get<'a>(m: &'a serde_json::Map<String, serde_json::Value>, key: &str) -> (r: Option<&'a serde_json::Value>)
    ensures
        match r {
            Some(v) => map_entries(*m).contains_key(key@) && *v == map_entries(*m)[key@],
            None => !map_entries(*m).contains_key(key@),
        },
{
    m.get(key)
}

/// `Map::remove` with a `&str` key: deletes the entry for `key`, leaves every
/// other entry as it was, and returns the value that `key` had.
#[verifier::external_body]
pub(crate) fn map_remove(m: &mut serde_json::Map<String, serde_json::Value>, key: &str) -> (r: Option<serde_json::Value>)
    ensures
        map_entries(*final(m)) == map_entries(*old(m)).remove(key@),
        r == (if map_entries(*old(m)).contains_key(key@) {
            Some(map_entries(*old(m))[key@])
        } else {
            None
        }),
{
    m.remove(key)
}

/// `serde_json::from_str` at type `Value`: reads one JSON value from `text`.
/// Whether it succeeds, and with which value, depends on the text alone.
#[verifier::external_body]
pub(crate) fn parse_json(text: &str) -> (r: Result<serde_json::Value, serde_json::Error>)
    ensures
        match r {
            Ok(v) => parsed_json(text@) == Some(v),
            Err(_) => parsed_json(text@) is None,
        },
{
    serde_json::from_str::<serde_json::Value>(text)
}

/// `Display` for `Value`, through `to_string`: the value as compact JSON text.
#[verifier::external_body]
pub(crate) fn print_json(v: &serde_json::Value) -> (r: String)
    ensures
        r@ == json_text(*v),
{
    v.to_string()
}

} // verus!
