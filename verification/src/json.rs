//! The JSON-like value abstraction that schemas and instances are made of.
//!
//! Both schema fragments and the instances checked against them are values
//! of this type.  Numbers are modelled as 64-bit integers; object members
//! keep their textual order, and a lookup returns the first member with a
//! matching key.

use vstd::prelude::*;

verus! {

/// A JSON-like value: the input alphabet of both the compiler (schema
/// fragments) and the validators (instances).
pub enum Json {
    Null,
    Bool(bool),
    Int(i64),
    Str(String),
    Arr(Vec<Json>),
    Obj(Vec<(String, Json)>),
}

/// The coarse type of a JSON value, as named by the `type` keyword.
#[derive(Clone, Copy, PartialEq, Eq, Structural, Debug)]
pub enum JsonType {
    Null,
    Boolean,
    Integer,
    Str,
    Array,
    Object,
}

/// The type of a value, used by the `type` keyword.  The schema words
/// `number` and `integer` both denote `JsonType::Integer`, since numbers
/// are modelled as integers.
pub open spec fn spec_type_of(v: Json) -> JsonType {
    match v {
        Json::Null => JsonType::Null,
        Json::Bool(_) => JsonType::Boolean,
        Json::Int(_) => JsonType::Integer,
        Json::Str(_) => JsonType::Str,
        Json::Arr(_) => JsonType::Array,
        Json::Obj(_) => JsonType::Object,
    }
}

impl Json {
    /// The coarse type of this value.
    pub fn json_type(&self) -> (t: JsonType)
        ensures
            t == spec_type_of(*self),
    {
        match self {
            Json::Null => JsonType::Null,
            Json::Bool(_) => JsonType::Boolean,
            Json::Int(_) => JsonType::Integer,
            Json::Str(_) => JsonType::Str,
            Json::Arr(_) => JsonType::Array,
            Json::Obj(_) => JsonType::Object,
        }
    }
}

/// First member of `fields` at or after position `k` whose key reads `key`.
pub open spec fn spec_obj_get_from(fields: Seq<(String, Json)>, key: Seq<char>, k: int) -> Option<
    Json,
>
    decreases fields.len() - k,
{
    if k < 0 || k >= fields.len() {
        None
    } else if fields[k].0@ == key {
        Some(fields[k].1)
    } else {
        spec_obj_get_from(fields, key, k + 1)
    }
}

/// Object member lookup: the first member whose key reads `key`.
pub open spec fn spec_obj_get(fields: Seq<(String, Json)>, key: Seq<char>) -> Option<Json> {
    spec_obj_get_from(fields, key, 0)
}

/// Executable object member lookup, returning a borrow of the value.
pub fn obj_get<'a>(fields: &'a Vec<(String, Json)>, key: &str) -> (r: Option<&'a Json>)
    ensures
        match r {
            Some(v) => spec_obj_get(fields@, key@) == Some(*v),
            None => spec_obj_get(fields@, key@) is None,
        },
{
    let key_string = String::from_str(key);
    let mut k: usize = 0;
    while k < fields.len()
        invariant
            0 <= k <= fields@.len(),
            key_string@ == key@,
            spec_obj_get_from(fields@, key@, 0) == spec_obj_get_from(fields@, key@, k as int),
        decreases fields@.len() - k,
    {
        if fields[k].0 == key_string {
            return Some(&fields[k].1);
        }
        k = k + 1;
    }
    None
}

} // verus!
