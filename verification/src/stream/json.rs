//! A JSON tree of plain values, and the one trusted parse that produces
//! it. Everything the feeds decode is read out of this tree by verified
//! code; numbers are kept as the text serde_json renders for them.

use vstd::prelude::*;

verus! {

/// One JSON value. A number holds the text of its canonical rendering,
/// an object holds its fields in the order the parser hands them out.
pub enum JsonValue {
    Null,
    Bool(bool),
    Num(String),
    Str(String),
    Arr(Vec<JsonValue>),
    Obj(Vec<(String, JsonValue)>),
}

/// The tree that parsing the given text yields, `None` when the text is
/// not JSON. What this names is fixed by `parse_json` alone.
pub uninterp spec fn json_of(s: Seq<char>) -> Option<JsonValue>;

#[verifier::external_type_specification]
#[verifier::external_body]
pub struct ExSerdeValue(serde_json::Value);

/// Relies on serde_json::Value: turns the parsed tree into the library's
/// own, variant by variant; a number becomes the text serde_json's
/// formatter writes for it.
#[verifier::external_body]
fn value_to_json(v: &serde_json::Value) -> JsonValue {
    match v {
        serde_json::Value::Null => JsonValue::Null,
        serde_json::Value::Bool(b) => JsonValue::Bool(*b),
        serde_json::Value::Number(n) => JsonValue::Num(n.to_string()),
        serde_json::Value::String(s) => JsonValue::Str(s.clone()),
        serde_json::Value::Array(a) => JsonValue::Arr(a.iter().map(value_to_json).collect()),
        serde_json::Value::Object(m) => JsonValue::Obj(
            m.iter().map(|(k, v)| ((k.clone()), (value_to_json(v)))).collect(),
        ),
    }
}

/// Relies on serde_json::from_str: parses one JSON document, `None` on a
/// syntax error. The result on given text depends on the text alone and
/// is named by `json_of`.
#[verifier::external_body]
pub fn parse_json(text: &str) -> (r: Option<JsonValue>)
    ensures
        r == json_of(text@),
{
    match serde_json::from_str::<serde_json::Value>(text) {
        Ok(v) => Some(value_to_json(&v)),
        Err(_) => None,
    }
}

/// The first field of the list carrying the given name, searched from
/// position `i` on.
pub open spec fn spec_lookup_from(fields: Seq<(String, JsonValue)>, key: Seq<char>, i: int) -> Option<
    JsonValue,
>
    decreases fields.len() - i,
{
    if i < 0 || i >= fields.len() {
        None
    } else if fields[i].0@ == key {
        Some(fields[i].1)
    } else {
        spec_lookup_from(fields, key, i + 1)
    }
}

/// What looking a key up on any JSON value yields: a field of an object,
/// nothing on every other shape.
pub open spec fn spec_get(v: JsonValue, key: Seq<char>) -> Option<JsonValue> {
    match v {
        JsonValue::Obj(fields) => spec_lookup_from(fields@, key, 0),
        _ => None,
    }
}

fn lookup_from<'a>(fields: &'a Vec<(String, JsonValue)>, key: &String, i: usize) -> (r: Option<
    &'a JsonValue,
>)
    requires
        i <= fields@.len(),
    ensures
        match r {
            Some(f) => spec_lookup_from(fields@, key@, i as int) == Some(*f),
            None => spec_lookup_from(fields@, key@, i as int) is None,
        },
    decreases fields@.len() - i,
{
    if i < fields.len() {
        if fields[i].0.eq(key) {
            Some(&fields[i].1)
        } else {
            lookup_from(fields, key, i + 1)
        }
    } else {
        None
    }
}

/// A required string field: the string under the key, nothing when the
/// key is absent or holds another shape.
pub open spec fn spec_req_str(item: JsonValue, key: Seq<char>) -> Option<String> {
    match spec_get(item, key) {
        Some(JsonValue::Str(s)) => Some(s),
        _ => None,
    }
}

/// A required number field: the number's text under the key.
pub open spec fn spec_req_num(item: JsonValue, key: Seq<char>) -> Option<String> {
    match spec_get(item, key) {
        Some(JsonValue::Num(t)) => Some(t),
        _ => None,
    }
}

/// A required boolean field.
pub open spec fn spec_req_bool(item: JsonValue, key: Seq<char>) -> Option<bool> {
    match spec_get(item, key) {
        Some(JsonValue::Bool(b)) => Some(b),
        _ => None,
    }
}

/// An optional string field: absent and null both mean "not there";
/// any other non-string shape is malformed (the outer `None`).
pub open spec fn spec_opt_str(item: JsonValue, key: Seq<char>) -> Option<Option<String>> {
    match spec_get(item, key) {
        None => Some(None),
        Some(JsonValue::Null) => Some(None),
        Some(JsonValue::Str(s)) => Some(Some(s)),
        Some(_) => None,
    }
}

/// An optional integer field: a number whose text is a decimal integer
/// that fits, absent or null for "not there", anything else malformed.
pub open spec fn spec_opt_i64(item: JsonValue, key: Seq<char>) -> Option<Option<i64>> {
    match spec_get(item, key) {
        None => Some(None),
        Some(JsonValue::Null) => Some(None),
        Some(JsonValue::Num(t)) => if crate::strutil::spec_is_int_text(t@) && i64::MIN
            <= crate::strutil::spec_int_val(t@) <= i64::MAX {
            Some(Some(crate::strutil::spec_int_val(t@) as i64))
        } else {
            None
        },
        Some(_) => None,
    }
}

/// The strings of an array, from position `i` on; nothing when some
/// element is not a string.
pub open spec fn spec_str_items_from(ls: Seq<JsonValue>, i: int) -> Option<Seq<String>>
    decreases ls.len() - i,
{
    if i < 0 || i >= ls.len() {
        Some(Seq::empty())
    } else {
        match ls[i] {
            JsonValue::Str(s) => match spec_str_items_from(ls, i + 1) {
                Some(rest) => Some(rest.insert(0, s)),
                None => None,
            },
            _ => None,
        }
    }
}

/// An optional array-of-strings field: absent and null mean "not
/// there", any other shape or a non-string element is malformed.
pub open spec fn spec_opt_str_list(item: JsonValue, key: Seq<char>) -> Option<Option<Seq<String>>> {
    match spec_get(item, key) {
        None => Some(None),
        Some(JsonValue::Null) => Some(None),
        Some(JsonValue::Arr(ls)) => match spec_str_items_from(ls@, 0) {
            Some(items) => Some(Some(items)),
            None => None,
        },
        Some(_) => None,
    }
}

/// Reads a required string field.
pub fn get_req_str(item: &JsonValue, key: &str) -> (r: Option<String>)
    ensures
        r == spec_req_str(*item, key@),
{
    match get(item, key) {
        Some(JsonValue::Str(s)) => Some(s.clone()),
        _ => None,
    }
}

/// Reads a required number field as its text.
pub fn get_req_num(item: &JsonValue, key: &str) -> (r: Option<String>)
    ensures
        r == spec_req_num(*item, key@),
{
    match get(item, key) {
        Some(JsonValue::Num(t)) => Some(t.clone()),
        _ => None,
    }
}

/// Reads a required boolean field.
pub fn get_req_bool(item: &JsonValue, key: &str) -> (r: Option<bool>)
    ensures
        r == spec_req_bool(*item, key@),
{
    match get(item, key) {
        Some(JsonValue::Bool(b)) => Some(*b),
        _ => None,
    }
}

/// Reads an optional string field.
pub fn get_opt_str(item: &JsonValue, key: &str) -> (r: Option<Option<String>>)
    ensures
        r == spec_opt_str(*item, key@),
{
    match get(item, key) {
        None => Some(None),
        Some(JsonValue::Null) => Some(None),
        Some(JsonValue::Str(s)) => Some(Some(s.clone())),
        Some(_) => None,
    }
}

/// Reads an optional integer field.
pub fn get_opt_i64(item: &JsonValue, key: &str) -> (r: Option<Option<i64>>)
    ensures
        r == spec_opt_i64(*item, key@),
{
    match get(item, key) {
        None => Some(None),
        Some(JsonValue::Null) => Some(None),
        Some(JsonValue::Num(t)) => match crate::strutil::parse_i64(t.as_str()) {
            Some(v) => Some(Some(v)),
            None => None,
        },
        Some(_) => None,
    }
}

fn str_items_from(arr: &Vec<JsonValue>, i: usize) -> (r: Option<Vec<String>>)
    requires
        i <= arr@.len(),
    ensures
        match r {
            Some(v) => spec_str_items_from(arr@, i as int) == Some(v@),
            None => spec_str_items_from(arr@, i as int) is None,
        },
    decreases arr@.len() - i,
{
    if i == arr.len() {
        Some(Vec::new())
    } else {
        match &arr[i] {
            JsonValue::Str(s) => match str_items_from(arr, i + 1) {
                Some(mut rest) => {
                    rest.insert(0, s.clone());
                    Some(rest)
                },
                None => None,
            },
            _ => None,
        }
    }
}

/// Reads an optional array-of-strings field.
pub fn get_opt_str_list(item: &JsonValue, key: &str) -> (r: Option<Option<Vec<String>>>)
    ensures
        match r {
            Some(Some(v)) => spec_opt_str_list(*item, key@) == Some(Some(v@)),
            Some(None) => spec_opt_str_list(*item, key@) == Some(None::<Seq<String>>),
            None => spec_opt_str_list(*item, key@) is None,
        },
{
    match get(item, key) {
        None => Some(None),
        Some(JsonValue::Null) => Some(None),
        Some(JsonValue::Arr(ls)) => match str_items_from(ls, 0) {
            Some(items) => Some(Some(items)),
            None => None,
        },
        Some(_) => None,
    }
}

/// The field of the given name, when `v` is an object that has one.
pub fn get<'a>(v: &'a JsonValue, key: &str) -> (r: Option<&'a JsonValue>)
    ensures
        match r {
            Some(f) => spec_get(*v, key@) == Some(*f),
            None => spec_get(*v, key@) is None,
        },
{
    match v {
        JsonValue::Obj(fields) => {
            let k = key.to_owned();
            lookup_from(fields, &k, 0)
        },
        _ => None,
    }
}

} // verus!
