//! Optional fields of a JSON object: how a boolean, a port and a list of
//! strings are written under a key, and how they are read back.
//!
//! Writing follows the omission rule: an absent field adds no key. Reading
//! treats a missing key and an explicit `null` alike, as an absent field, and
//! any other value of the wrong type as invalid.

use vstd::prelude::*;
use crate::json::{json_shape, map_entries, map_get, value_array, value_bool, value_string, value_u16, JsonEntries, JsonShape};

verus! {

/// What reading finds under one key of an object.
pub enum Field<T> {
    /// No key, or the key holds `null`.
    Absent,
    /// The key holds a value of the field's type.
    Present(T),
    /// The key holds a value of another type.
    Invalid,
}

impl<T> Field<T> {
    /// The field's value, `None` unless it is present.
    pub open spec fn value(self) -> Option<T> {
        match self {
            Field::Present(x) => Some(x),
            _ => None,
        }
    }

    /// The field as reading reports it for a field that holds `x`.
    pub open spec fn of(x: Option<T>) -> Field<T> {
        match x {
            Some(t) => Field::Present(t),
            None => Field::Absent,
        }
    }
}

/// The value to read under `key`: `None` where the key is missing or holds
/// `null`.
pub open spec fn slot(m: JsonEntries, key: Seq<char>) -> Option<serde_json::Value> {
    if m.contains_key(key) && !(json_shape(m[key]) is Null) {
        Some(m[key])
    } else {
        None
    }
}

/// `v` is the JSON boolean `b`.
pub open spec fn encodes_bool(v: serde_json::Value, b: bool) -> bool {
    json_shape(v) == JsonShape::Bool(b)
}

/// `v` is the JSON number `p`.
pub open spec fn encodes_port(v: serde_json::Value, p: u16) -> bool {
    json_shape(v) == JsonShape::Unsigned(p as u64)
}

/// `v` is the JSON array of the strings `list`, in order.
pub open spec fn encodes_strings(v: serde_json::Value, list: Seq<Seq<char>>) -> bool {
    &&& json_shape(v) matches JsonShape::Array(items)
    &&& items.len() == list.len()
    &&& forall|i: int| 0 <= i < list.len() ==> json_shape(#[trigger] items[i]) == JsonShape::String(list[i])
}

/// The boolean that `v` holds, if it is a JSON boolean.
pub open spec fn bool_of_json(v: serde_json::Value) -> Option<bool> {
    match json_shape(v) {
        JsonShape::Bool(b) => Some(b),
        _ => None,
    }
}

/// The port that `v` holds, if it is an integer from 0 to 65535.
pub open spec fn port_of_json(v: serde_json::Value) -> Option<u16> {
    match json_shape(v) {
        JsonShape::Unsigned(n) => if n <= 0xffff {
            Some(n as u16)
        } else {
            None
        },
        _ => None,
    }
}

/// The strings that `v` holds, if it is an array of JSON strings.
pub open spec fn strings_of_json(v: serde_json::Value) -> Option<Seq<Seq<char>>> {
    match json_shape(v) {
        JsonShape::Array(items) => if forall|i: int| 0 <= i < items.len() ==> json_shape(#[trigger] items[i]) is String {
            Some(Seq::new(items.len(), |i: int| json_shape(items[i])->String_0))
        } else {
            None
        },
        _ => None,
    }
}

/// The optional boolean field `x` is written under `key`: no key where it is
/// absent, its JSON boolean where it is present.
pub open spec fn holds_bool(m: JsonEntries, key: Seq<char>, x: Option<bool>) -> bool {
    match x {
        Some(b) => m.contains_key(key) && encodes_bool(m[key], b),
        None => !m.contains_key(key),
    }
}

/// The optional port field `x` is written under `key`.
pub open spec fn holds_port(m: JsonEntries, key: Seq<char>, x: Option<u16>) -> bool {
    match x {
        Some(p) => m.contains_key(key) && encodes_port(m[key], p),
        None => !m.contains_key(key),
    }
}

/// The optional list field `x` is written under `key`.
pub open spec fn holds_strings(m: JsonEntries, key: Seq<char>, x: Option<Seq<Seq<char>>>) -> bool {
    match x {
        Some(list) => m.contains_key(key) && encodes_strings(m[key], list),
        None => !m.contains_key(key),
    }
}

/// What reading an optional boolean under `key` finds.
pub open spec fn bool_field(m: JsonEntries, key: Seq<char>) -> Field<bool> {
    match slot(m, key) {
        None => Field::Absent,
        Some(v) => match bool_of_json(v) {
            Some(b) => Field::Present(b),
            None => Field::Invalid,
        },
    }
}

/// What reading an optional port under `key` finds.
pub open spec fn port_field(m: JsonEntries, key: Seq<char>) -> Field<u16> {
    match slot(m, key) {
        None => Field::Absent,
        Some(v) => match port_of_json(v) {
            Some(p) => Field::Present(p),
            None => Field::Invalid,
        },
    }
}

/// What reading an optional list of strings under `key` finds.
pub open spec fn strings_field(m: JsonEntries, key: Seq<char>) -> Field<Seq<Seq<char>>> {
    match slot(m, key) {
        None => Field::Absent,
        Some(v) => match strings_of_json(v) {
            Some(list) => Field::Present(list),
            None => Field::Invalid,
        },
    }
}

/// `after` is `before` with `key` set where `present`, and `before` itself
/// where not.
pub open spec fn written(before: JsonEntries, after: JsonEntries, key: Seq<char>, present: bool) -> bool {
    if present {
        after == before.insert(key, after[key])
    } else {
        after == before
    }
}

/// A boolean that is written reads back as itself.
pub proof fn lemma_bool_reads_back(m: JsonEntries, key: Seq<char>, x: Option<bool>)
    requires
        holds_bool(m, key, x),
    ensures
        bool_field(m, key) == Field::of(x),
{
}

/// A port that is written reads back as itself.
pub proof fn lemma_port_reads_back(m: JsonEntries, key: Seq<char>, x: Option<u16>)
    requires
        holds_port(m, key, x),
    ensures
        port_field(m, key) == Field::of(x),
{
}

/// A list of strings that is written reads back as itself.
pub proof fn lemma_strings_read_back(m: JsonEntries, key: Seq<char>, x: Option<Seq<Seq<char>>>)
    requires
        holds_strings(m, key, x),
    ensures
        strings_field(m, key) == Field::of(x),
{
    if let Some(list) = x {
        let items = json_shape(m[key])->Array_0;
        assert(Seq::new(items.len(), |i: int| json_shape(items[i])->String_0) =~= list);
    }
}

/// Writes the optional boolean `x` under `key`.
pub(crate) fn put_bool(m: &mut serde_json::Map<String, serde_json::Value>, key: &str, x: Option<bool>)
    ensures
        written(map_entries(*old(m)), map_entries(*final(m)), key@, x is Some),
        x matches Some(b) ==> encodes_bool(map_entries(*final(m))[key@], b),
{
    if let Some(b) = x {
        let _ = m.insert(key.to_string(), value_bool(b));
    }
}

/// Writes the optional port `x` under `key`.
pub(crate) fn put_port(m: &mut serde_json::Map<String, serde_json::Value>, key: &str, x: Option<u16>)
    ensures
        written(map_entries(*old(m)), map_entries(*final(m)), key@, x is Some),
        x matches Some(p) ==> encodes_port(map_entries(*final(m))[key@], p),
{
    if let Some(p) = x {
        let _ = m.insert(key.to_string(), value_u16(p));
    }
}

/// The JSON array of the strings of `list`.
pub(crate) fn strings_to_json(list: &Vec<String>) -> (r: serde_json::Value)
    ensures
        encodes_strings(r, list.deep_view()),
{
    let mut items: Vec<serde_json::Value> = Vec::new();
    let mut i: usize = 0;
    while i < list.len()
        invariant
            i <= list.len(),
            items.len() == i,
            forall|j: int| 0 <= j < i ==> json_shape(#[trigger] items[j]) == JsonShape::String(list[j]@),
        decreases list.len() - i,
    {
        items.push(value_string(list[i].clone()));
        i += 1;
    }
    value_array(items)
}

/// Writes the optional list of strings `x` under `key`.
pub(crate) fn put_strings(m: &mut serde_json::Map<String, serde_json::Value>, key: &str, x: &Option<Vec<String>>)
    ensures
        written(map_entries(*old(m)), map_entries(*final(m)), key@, x is Some),
        x.deep_view() matches Some(list) ==> encodes_strings(map_entries(*final(m))[key@], list),
{
    if let Some(list) = x {
        let _ = m.insert(key.to_string(), strings_to_json(list));
    }
}

/// Reads the optional boolean under `key`.
pub(crate) fn get_bool(m: &serde_json::Map<String, serde_json::Value>, key: &str) -> (r: Field<bool>)
    ensures
        r == bool_field(map_entries(*m), key@),
{
    match map_get(m, key) {
        None => Field::Absent,
        Some(v) => if v.is_null() {
            Field::Absent
        } else {
            match v.as_bool() {
                Some(b) => Field::Present(b),
                None => Field::Invalid,
            }
        },
    }
}

/// Reads the optional port under `key`.
pub(crate) fn get_port(m: &serde_json::Map<String, serde_json::Value>, key: &str) -> (r: Field<u16>)
    ensures
        r == port_field(map_entries(*m), key@),
{
    match map_get(m, key) {
        None => Field::Absent,
        Some(v) => if v.is_null() {
            Field::Absent
        } else {
            match v.as_u64() {
                Some(n) => if n <= 0xffff {
                    Field::Present(n as u16)
                } else {
                    Field::Invalid
                },
                None => Field::Invalid,
            }
        },
    }
}

/// The strings of a JSON array of strings, `None` for any other value.
pub(crate) fn strings_from_json(v: &serde_json::Value) -> (r: Option<Vec<String>>)
    ensures
        r.deep_view() == strings_of_json(*v),
{
    let items = match v.as_array() {
        Some(items) => items,
        None => {
            return None;
        },
    };
    let mut list: Vec<String> = Vec::new();
    let mut i: usize = 0;
    while i < items.len()
        invariant
            i <= items.len(),
            list.len() == i,
            json_shape(*v) == JsonShape::Array(items@),
            forall|j: int| 0 <= j < i ==> json_shape(#[trigger] items[j]) == JsonShape::String(list[j]@),
        decreases items.len() - i,
    {
        match items[i].as_str() {
            Some(s) => {
                list.push(s.to_string());
            },
            None => {
                return None;
            },
        }
        i += 1;
    }
    assert(list.deep_view() =~= Seq::new(items@.len(), |i: int| json_shape(items@[i])->String_0));
    Some(list)
}

/// Reads the optional list of strings under `key`.
pub(crate) fn get_strings(m: &serde_json::Map<String, serde_json::Value>, key: &str) -> (r: Field<Vec<String>>)
    ensures
        match r {
            Field::Absent => strings_field(map_entries(*m), key@) is Absent,
            Field::Present(list) => strings_field(map_entries(*m), key@) == Field::Present(list.deep_view()),
            Field::Invalid => strings_field(map_entries(*m), key@) is Invalid,
        },
{
    match map_get(m, key) {
        None => Field::Absent,
        Some(v) => if v.is_null() {
            Field::Absent
        } else {
            match strings_from_json(v) {
                Some(list) => Field::Present(list),
                None => Field::Invalid,
            }
        },
    }
}

} // verus!
