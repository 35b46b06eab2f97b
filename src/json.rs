//! The JSON values that pass between the engine and the store.
//!
//! `serde_json::Value` and `serde_json::Map` are carried as opaque values.
//! What the logic reads of them is named below and related to serde_json's
//! own functions by the wrappers of this module.
use vstd::prelude::*;

verus! {

#[verifier::external_type_specification]
#[verifier::external_body]
pub struct ExJsonValue(serde_json::Value);

#[verifier::external_type_specification]
#[verifier::external_body]
#[verifier::reject_recursive_types(K)]
#[verifier::reject_recursive_types(V)]
pub struct ExJsonMap<K, V>(serde_json::Map<K, V>);

/// A JSON object's map, keyed by text.
pub type JsonMap = serde_json::Map<String, serde_json::Value>;

/// The entries of a JSON object map, by key.
pub uninterp spec fn object_entries(m: JsonMap) -> Map<Seq<char>, serde_json::Value>;

/// What `Value::as_object` finds in a value: its map when the value is an object.
pub uninterp spec fn json_object(v: serde_json::Value) -> Option<JsonMap>;

/// Whether `Value::is_null` holds of a value.
pub uninterp spec fn json_is_null(v: serde_json::Value) -> bool;

/// What `Value::as_str` finds in a value: its text when the value is a string.
pub uninterp spec fn json_str(v: serde_json::Value) -> Option<Seq<char>>;

/// The compact JSON text of a value.
pub uninterp spec fn json_text(v: serde_json::Value) -> Seq<char>;

/// The value that `serde_json::from_str` reads from a text, if the text is JSON.
pub uninterp spec fn parsed_json(s: Seq<char>) -> Option<serde_json::Value>;

/// The `Debug` rendering of a value.
pub uninterp spec fn debug_text(v: serde_json::Value) -> Seq<char>;

/// The key/value pairs of a sequence of entries, a later pair for a key
/// overriding an earlier one.
pub open spec fn pairs_to_map(s: Seq<(String, serde_json::Value)>) -> Map<Seq<char>, serde_json::Value>
    decreases s.len(),
{
    if s.len() == 0 {
        Map::empty()
    } else {
        pairs_to_map(s.drop_last()).insert(s.last().0@, s.last().1)
    }
}

/// The entries of an empty object.
pub open spec fn no_entries() -> Map<Seq<char>, serde_json::Value> {
    Map::empty()
}

/// The entries of a value read as an object.
pub open spec fn entries_of(v: serde_json::Value) -> Option<Map<Seq<char>, serde_json::Value>> {
    match json_object(v) {
        Some(m) => Some(object_entries(m)),
        None => None,
    }
}

/// Relies on `Value::is_null`: true exactly for `Value::Null`.
pub assume_specification[ serde_json::Value::is_null ](v: &serde_json::Value) -> (r: bool)
    ensures
        r == json_is_null(*v),
;

/// Relies on `Value`'s derived `Clone`: an equal value.
pub assume_specification[ <serde_json::Value as Clone>::clone ](v: &serde_json::Value) -> (r: serde_json::Value)
    ensures
        r == *v,
;

/// Relies on `Value::as_object`: the map of an object, `None` for any other value.
pub assume_specification[ serde_json::Value::as_object ](v: &serde_json::Value) -> (r: Option<&serde_json::Map<String, serde_json::Value>>)
    ensures
        match r {
            Some(m) => json_object(*v) == Some(*m),
            None => json_object(*v).is_none(),
        },
;

/// Relies on `Value::as_str`: the text of a string, `None` for any other value.
pub assume_specification[ serde_json::Value::as_str ](v: &serde_json::Value) -> (r: Option<&str>)
    ensures
        match r {
            Some(s) => json_str(*v) == Some(s@),
            None => json_str(*v).is_none(),
        },
;

/// Relies on `Map::new`: a map with no entries.
#[verifier::external_body]
pub fn empty_map() -> (r: JsonMap)
    ensures
        object_entries(r) == no_entries(),
{
    serde_json::Map::new()
}

/// Relies on `Map::contains_key`.
#[verifier::external_body]
pub fn map_has(m: &JsonMap, k: &str) -> (r: bool)
    ensures
        r == object_entries(*m).contains_key(k@),
{
    m.contains_key(k)
}

/// Relies on `Map::get`: the value stored under a key.
#[verifier::external_body]
pub fn map_get<'a>(m: &'a JsonMap, k: &str) -> (r: Option<&'a serde_json::Value>)
    ensures
        match r {
            Some(v) => object_entries(*m).contains_key(k@) && object_entries(*m)[k@] == *v,
            None => !object_entries(*m).contains_key(k@),
        },
{
    m.get(k)
}

/// Relies on `Map::insert`: the key now maps to the value, other keys are kept.
#[verifier::external_body]
pub fn map_insert(m: &mut JsonMap, k: String, v: serde_json::Value)
    ensures
        object_entries(*final(m)) == object_entries(*old(m)).insert(k@, v),
{
    m.insert(k, v);
}

/// Relies on `Map::remove`: the key is gone and its value, if any, is handed back.
#[verifier::external_body]
pub fn map_remove(m: &mut JsonMap, k: &str) -> (r: Option<serde_json::Value>)
    ensures
        object_entries(*final(m)) == object_entries(*old(m)).remove(k@),
        match r {
            Some(v) => object_entries(*old(m)).contains_key(k@) && object_entries(*old(m))[k@] == v,
            None => !object_entries(*old(m)).contains_key(k@),
        },
{
    m.remove(k)
}

/// Relies on `Map::iter`: each entry once, with its key and a copy of its value.
#[verifier::external_body]
pub fn map_pairs(m: &JsonMap) -> (r: Vec<(String, serde_json::Value)>)
    ensures
        pairs_to_map(r@) == object_entries(*m),
        forall|i: int, j: int| 0 <= i < j < r@.len() ==> r@[i].0@ != r@[j].0@,
{
    m.iter().map(|(k, v)| (k.clone(), v.clone())).collect()
}

/// Relies on `Value::Object`: an object value holding the map.
#[verifier::external_body]
pub fn object_value(m: JsonMap) -> (r: serde_json::Value)
    ensures
        json_object(r) == Some(m),
        !json_is_null(r),
{
    serde_json::Value::Object(m)
}

/// Relies on `Value::Object`: takes the map out of an object value, or hands
/// back any other value as it was.
#[verifier::external_body]
pub fn into_object(v: serde_json::Value) -> (r: Result<JsonMap, serde_json::Value>)
    ensures
        match r {
            Ok(m) => json_object(v) == Some(m),
            Err(w) => w == v && json_object(v).is_none(),
        },
{
    match v {
        serde_json::Value::Object(m) => Ok(m),
        other => Err(other),
    }
}

/// Relies on `Value::Null`.
#[verifier::external_body]
pub fn null_value() -> (r: serde_json::Value)
    ensures
        json_is_null(r),
        json_object(r).is_none(),
{
    serde_json::Value::Null
}

/// Relies on `Value::String`: a string value holding the text.
#[verifier::external_body]
pub fn string_value(s: String) -> (r: serde_json::Value)
    ensures
        json_str(r) == Some(s@),
        json_object(r).is_none(),
{
    serde_json::Value::String(s)
}

/// Relies on `Value`'s `Display`, which writes the compact JSON text: no
/// whitespace between tokens, and a line break inside a string escaped.
#[verifier::external_body]
pub fn to_json_text(v: &serde_json::Value) -> (r: String)
    ensures
        r@ == json_text(*v),
        !r@.contains('\n'),
{
    v.to_string()
}

/// Relies on `serde_json::from_str` read into a `Value`.
#[verifier::external_body]
pub fn parse_json(s: &str) -> (r: Option<serde_json::Value>)
    ensures
        r == parsed_json(s@),
{
    serde_json::from_str::<serde_json::Value>(s).ok()
}

/// Relies on `Value`'s `Debug`.
#[verifier::external_body]
pub fn debug_string(v: &serde_json::Value) -> (r: String)
    ensures
        r@ == debug_text(*v),
{
    format!("{:?}", v)
}

} // verus!
