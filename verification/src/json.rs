//! A one-level model of JSON values, parsed by `serde_json`.
//!
//! A parsed value keeps its scalars as they are and each child of an array or object as the
//! compact JSON text that `serde_json` prints for it; a child is read by parsing that text again.
//! Object members come in the order of `serde_json`'s map, one member per key.
use vstd::prelude::*;

use crate::text::str_eq;
use serde_json::Value as V;

verus! {

/// A JSON value with its children kept as JSON text.
#[derive(Debug, Clone)]
pub enum JsonValue {
    Null,
    Bool(bool),
    /// The number as `serde_json` prints it.
    Number(String),
    Str(String),
    /// Each element as compact JSON text.
    Array(Vec<String>),
    /// Each member as its key and the compact JSON text of its value.
    Object(Vec<(String, String)>),
}

/// The mathematical form of a [`JsonValue`].
pub enum JsonModel {
    Null,
    Bool(bool),
    Number(Seq<char>),
    Str(Seq<char>),
    Array(Seq<Seq<char>>),
    Object(Seq<(Seq<char>, Seq<char>)>),
}

pub open spec fn member_view(p: (String, String)) -> (Seq<char>, Seq<char>) {
    (p.0@, p.1@)
}

pub open spec fn string_view(s: String) -> Seq<char> {
    s@
}

impl View for JsonValue {
    type V = JsonModel;

    open spec fn view(&self) -> JsonModel {
        match self {
            JsonValue::Null => JsonModel::Null,
            JsonValue::Bool(b) => JsonModel::Bool(*b),
            JsonValue::Number(n) => JsonModel::Number(n@),
            JsonValue::Str(s) => JsonModel::Str(s@),
            JsonValue::Array(a) => JsonModel::Array(a@.map_values(|s: String| string_view(s))),
            JsonValue::Object(o) => JsonModel::Object(
                o@.map_values(|p: (String, String)| member_view(p)),
            ),
        }
    }
}

/// What `serde_json::from_str::<serde_json::Value>` gives for a text: the value, or the text of
/// its error.
pub uninterp spec fn serde_json_from_str(text: Seq<char>) -> Result<JsonModel, Seq<char>>;

/// The compact text of the first value that `serde_json`'s stream deserializer reads from a text,
/// when that first read succeeds.
pub uninterp spec fn serde_json_first_value(text: Seq<char>) -> Option<Seq<char>>;

/// Parses `text` with `serde_json::from_str::<serde_json::Value>` and converts the value one
/// level deep; the contract only ties the outcome to the name `serde_json_from_str`.
#[verifier::external_body]
fn serde_parse(text: &str) -> (r: Result<JsonValue, String>)
    ensures
        match r {
            Ok(v) => serde_json_from_str(text@) == Ok::<JsonModel, Seq<char>>(v@),
            Err(e) => serde_json_from_str(text@) == Err::<JsonModel, Seq<char>>(e@),
        },
{
    match serde_json::from_str::<V>(text) {
        Ok(V::Null) => Ok(JsonValue::Null),
        Ok(V::Bool(b)) => Ok(JsonValue::Bool(b)),
        Ok(V::Number(n)) => Ok(JsonValue::Number(n.to_string())),
        Ok(V::String(s)) => Ok(JsonValue::Str(s)),
        Ok(V::Array(a)) => Ok(JsonValue::Array(a.iter().map(|x| x.to_string()).collect())),
        Ok(V::Object(o)) => Ok(JsonValue::Object(
            o.iter().map(|(k, x)| (k.clone(), x.to_string())).collect(),
        )),
        Err(e) => Err(e.to_string()),
    }
}

/// Reads the first value of `text` with `serde_json::Deserializer::from_str(..).into_iter()` and
/// returns its compact text when that read succeeds; the contract ties it to the name
/// `serde_json_first_value`.
#[verifier::external_body]
fn serde_first_value(text: &str) -> (r: Option<String>)
    ensures
        match r {
            Some(t) => serde_json_first_value(text@) == Some(t@),
            None => serde_json_first_value(text@) is None,
        },
{
    let mut values = serde_json::Deserializer::from_str(text).into_iter::<serde_json::Value>();
    match values.next() {
        Some(Ok(v)) => Some(v.to_string()),
        _ => None,
    }
}

/// Parses a JSON text.
pub fn parse(text: &str) -> (r: Result<JsonValue, String>)
    ensures
        match r {
            Ok(v) => serde_json_from_str(text@) == Ok::<JsonModel, Seq<char>>(v@),
            Err(e) => serde_json_from_str(text@) == Err::<JsonModel, Seq<char>>(e@),
        },
{
    serde_parse(text)
}

/// The compact text of the first JSON value in `text`, if it reads as one.
pub fn first_value(text: &str) -> (r: Option<String>)
    ensures
        match r {
            Some(t) => serde_json_first_value(text@) == Some(t@),
            None => serde_json_first_value(text@) is None,
        },
{
    serde_first_value(text)
}

/// Index of the first member with key `key`, searching from `i`.
pub open spec fn key_index_from(f: Seq<(Seq<char>, Seq<char>)>, key: Seq<char>, i: int) -> Option<
    int,
>
    decreases f.len() - i,
{
    if i < 0 || i >= f.len() {
        None
    } else if f[i].0 == key {
        Some(i)
    } else {
        key_index_from(f, key, i + 1)
    }
}

/// The value text of member `key`, as `serde_json::Value::get` finds it.
pub open spec fn member(f: Seq<(Seq<char>, Seq<char>)>, key: Seq<char>) -> Option<Seq<char>> {
    match key_index_from(f, key, 0) {
        Some(i) => Some(f[i].1),
        None => None,
    }
}

/// The text of member `key` of a value; `None` unless the value is an object that has it.
pub open spec fn get_spec(m: JsonModel, key: Seq<char>) -> Option<Seq<char>> {
    match m {
        JsonModel::Object(f) => member(f, key),
        _ => None,
    }
}

/// The string that a JSON text denotes, if it denotes a string.
pub open spec fn text_as_str(t: Seq<char>) -> Option<Seq<char>> {
    match serde_json_from_str(t) {
        Ok(JsonModel::Str(s)) => Some(s),
        _ => None,
    }
}

/// `value.get(key).and_then(|v| v.as_str())`.
pub open spec fn get_str_spec(m: JsonModel, key: Seq<char>) -> Option<Seq<char>> {
    match get_spec(m, key) {
        Some(t) => text_as_str(t),
        None => None,
    }
}

/// The JSON type name of a value, as JSON Schema spells it.
pub open spec fn kind_spec(m: JsonModel) -> Seq<char> {
    match m {
        JsonModel::Null => "null"@,
        JsonModel::Bool(_) => "boolean"@,
        JsonModel::Number(_) => "number"@,
        JsonModel::Str(_) => "string"@,
        JsonModel::Array(_) => "array"@,
        JsonModel::Object(_) => "object"@,
    }
}

proof fn lemma_key_index_from(f: Seq<(Seq<char>, Seq<char>)>, key: Seq<char>, i: int)
    requires
        0 <= i,
    ensures
        match key_index_from(f, key, i) {
            Some(j) => i <= j < f.len() && f[j].0 == key && forall|k: int|
                i <= k < j ==> #[trigger] f[k].0 != key,
            None => forall|k: int| i <= k < f.len() ==> #[trigger] f[k].0 != key,
        },
    decreases f.len() - i,
{
    if i < f.len() && f[i].0 != key {
        lemma_key_index_from(f, key, i + 1);
    }
}

/// Position of the member named `key`.
pub fn key_index(fields: &Vec<(String, String)>, key: &str) -> (r: Option<usize>)
    ensures
        r matches Some(i) ==> i < fields.len() && key_index_from(fields@.map_values(|p: (String, String)| member_view(p)), key@, 0)
            == Some(i as int),
        r is None ==> key_index_from(fields@.map_values(|p: (String, String)| member_view(p)), key@, 0)
            is None,
{
    let ghost f = fields@.map_values(|p: (String, String)| member_view(p));
    let mut i: usize = 0;
    while i < fields.len()
        invariant
            i <= fields.len(),
            f == fields@.map_values(|p: (String, String)| member_view(p)),
            key_index_from(f, key@, 0) == key_index_from(f, key@, i as int),
        decreases fields.len() - i,
    {
        if str_eq(fields[i].0.as_str(), key) {
            assert(f[i as int].0 == key@);
            return Some(i);
        }
        assert(f[i as int].0 != key@);
        i = i + 1;
    }
    None
}

impl JsonValue {
    /// The text of member `key`, if this is an object that has one (`serde_json::Value::get`).
    pub fn get(&self, key: &str) -> (r: Option<String>)
        ensures
            match r {
                Some(t) => get_spec(self@, key@) == Some(t@),
                None => get_spec(self@, key@) is None,
            },
    {
        match self {
            JsonValue::Object(fields) => {
                match key_index(fields, key) {
                    Some(i) => Some(fields[i].1.clone()),
                    None => None,
                }
            },
            _ => None,
        }
    }

    /// The string member `key`, if this is an object whose member `key` is a string.
    pub fn get_str(&self, key: &str) -> (r: Option<String>)
        ensures
            match r {
                Some(s) => get_str_spec(self@, key@) == Some(s@),
                None => get_str_spec(self@, key@) is None,
            },
    {
        match self.get(key) {
            Some(t) => text_str(&t),
            None => None,
        }
    }

    /// `"null"`, `"boolean"`, `"number"`, `"string"`, `"array"` or `"object"`.
    pub fn kind(&self) -> (r: &'static str)
        ensures
            r@ == kind_spec(self@),
    {
        match self {
            JsonValue::Null => "null",
            JsonValue::Bool(_) => "boolean",
            JsonValue::Number(_) => "number",
            JsonValue::Str(_) => "string",
            JsonValue::Array(_) => "array",
            JsonValue::Object(_) => "object",
        }
    }

    /// Whether this is an object.
    pub fn is_object(&self) -> (r: bool)
        ensures
            r == (self@ is Object),
    {
        match self {
            JsonValue::Object(_) => true,
            _ => false,
        }
    }
}

/// The string that the JSON text `t` denotes, if it denotes one.
pub fn text_str(t: &String) -> (r: Option<String>)
    ensures
        match r {
            Some(s) => text_as_str(t@) == Some(s@),
            None => text_as_str(t@) is None,
        },
{
    match parse(t.as_str()) {
        Ok(JsonValue::Str(s)) => Some(s),
        _ => None,
    }
}

} // verus!
