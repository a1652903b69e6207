//! A model of the JSON documents the pipeline reads, the trusted parser
//! behind it, and verified helpers for reading object members.

use vstd::prelude::*;

verus! {

/// A JSON value, holding exactly the shape that the commit-pattern schema
/// inspects. The content of a number is never read by the schema, so a number
/// carries no payload here. Object members are kept as a sequence of
/// key/value pairs, and lookups take the first member with a matching key.
pub enum Json {
    Null,
    Bool(bool),
    Number,
    Str(String),
    Arr(Vec<Json>),
    Obj(Vec<(String, Json)>),
}

/// The JSON value that the given text parses to, or `None` where the text is
/// not valid JSON. The parse result depends on the text alone.
pub uninterp spec fn json_of(s: Seq<char>) -> Option<Json>;

/// Declares serde_json::Value so that the trusted parser below can take the
/// parsed tree apart; the value stays opaque to verified code.
#[verifier::external_type_specification]
#[verifier::external_body]
pub struct ExJsonValue(serde_json::Value);

/// Relies on serde_json::Value: each variant of the parsed tree is moved into
/// the library's own form; the payload of a number is dropped, since the
/// commit-pattern schema never reads one.
#[verifier::external_body]
fn tree_of_value(v: serde_json::Value) -> Json {
    match v {
        serde_json::Value::Null => Json::Null,
        serde_json::Value::Bool(b) => Json::Bool(b),
        serde_json::Value::Number(_) => Json::Number,
        serde_json::Value::String(s) => Json::Str(s),
        serde_json::Value::Array(a) => Json::Arr(a.into_iter().map(tree_of_value).collect()),
        serde_json::Value::Object(m) => Json::Obj(
            m.into_iter().map(|p| (p.0, tree_of_value(p.1))).collect(),
        ),
    }
}

/// Relies on serde_json::from_str::<serde_json::Value>: parses JSON text into
/// a value tree; it succeeds exactly on valid JSON, and the result depends on
/// the text alone.
#[verifier::external_body]
pub(crate) fn parse_json(s: &String) -> (r: Option<Json>)
    ensures
        r == json_of(s@),
{
    match serde_json::from_str::<serde_json::Value>(s.as_str()) {
        Ok(v) => Some(tree_of_value(v)),
        Err(_) => None,
    }
}

/// The value of the first member of `fields` at or after position `i` whose
/// key reads `key`.
pub open spec fn lookup_from(fields: Seq<(String, Json)>, key: Seq<char>, i: int) -> Option<Json>
    decreases fields.len() - i,
{
    if i < 0 || i >= fields.len() {
        None
    } else if fields[i].0@ == key {
        Some(fields[i].1)
    } else {
        lookup_from(fields, key, i + 1)
    }
}

/// The value of the first member of `fields` whose key reads `key`.
pub open spec fn lookup(fields: Seq<(String, Json)>, key: Seq<char>) -> Option<Json> {
    lookup_from(fields, key, 0)
}

/// The character content of a JSON string value, where it is one.
pub open spec fn str_of(j: Json) -> Option<Seq<char>> {
    match j {
        Json::Str(s) => Some(s@),
        _ => None,
    }
}

/// The elements of a JSON array value, where it is one.
pub open spec fn arr_of(j: Json) -> Option<Seq<Json>> {
    match j {
        Json::Arr(a) => Some(a@),
        _ => None,
    }
}

/// The string content of the member named `key`, or `None` where the member
/// is missing or is not a string.
pub open spec fn req_str(fields: Seq<(String, Json)>, key: Seq<char>) -> Option<Seq<char>> {
    match lookup(fields, key) {
        Some(j) => str_of(j),
        None => None,
    }
}

/// The content of an optional string member: a missing member and `null` both
/// read as absent; any other non-string value is a schema violation.
pub open spec fn opt_str(fields: Seq<(String, Json)>, key: Seq<char>) -> Option<
    Option<Seq<char>>,
> {
    match lookup(fields, key) {
        None => Some(None),
        Some(Json::Null) => Some(None),
        Some(Json::Str(s)) => Some(Some(s@)),
        Some(_) => None,
    }
}

/// Finds the member of an object named `key`.
pub fn obj_get<'a>(fields: &'a Vec<(String, Json)>, key: &String) -> (r: Option<&'a Json>)
    ensures
        match r {
            Some(j) => lookup(fields@, key@) == Some(*j),
            None => lookup(fields@, key@) is None,
        },
{
    let mut i: usize = 0;
    while i < fields.len()
        invariant
            i <= fields@.len(),
            lookup(fields@, key@) == lookup_from(fields@, key@, i as int),
        decreases fields@.len() - i,
    {
        if fields[i].0.eq(key) {
            return Some(&fields[i].1);
        }
        i = i + 1;
    }
    None
}

/// Reads the required string member named `key`.
pub fn get_req_str(fields: &Vec<(String, Json)>, key: &String) -> (r: Option<String>)
    ensures
        match r {
            Some(s) => req_str(fields@, key@) == Some(s@),
            None => req_str(fields@, key@) is None,
        },
{
    match obj_get(fields, key) {
        Some(j) => match j {
            Json::Str(s) => Some(s.clone()),
            _ => None,
        },
        None => None,
    }
}

/// Reads the optional string member named `key`.
pub fn get_opt_str(fields: &Vec<(String, Json)>, key: &String) -> (r: Option<Option<String>>)
    ensures
        match r {
            Some(Some(s)) => opt_str(fields@, key@) == Some(Some(s@)),
            Some(None) => opt_str(fields@, key@) == Some(None::<Seq<char>>),
            None => opt_str(fields@, key@) is None,
        },
{
    match obj_get(fields, key) {
        None => Some(None),
        Some(j) => match j {
            Json::Null => Some(None),
            Json::Str(s) => Some(Some(s.clone())),
            _ => None,
        },
    }
}

} // verus!
