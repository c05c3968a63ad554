//! A parsed JSON document, and the field readers the schema decoders are built from.
use vstd::prelude::*;

verus! {

/// A parsed JSON value.
///
/// Numbers that fit an `i64` are held as `Int`; any other number keeps its
/// text in `OtherNumber`. Object entries keep the order of the document.
#[derive(Debug)]
pub enum JsonValue {
    Null,
    Bool(bool),
    Int(i64),
    OtherNumber(String),
    Str(String),
    Array(Vec<JsonValue>),
    Object(Vec<(String, JsonValue)>),
}

/// Why a JSON value could not be read as one of the schema's types.
///
/// Each variant names the field (by its key in the document) where reading stopped.
#[derive(Debug, PartialEq, Eq)]
pub enum DecodeError {
    /// A required field is absent.
    MissingField(&'static str),
    /// A field holds a value of the wrong JSON type, or a number out of range.
    InvalidType(&'static str),
    /// The value that should hold a structure is not a JSON object.
    NotAnObject,
}

/// The value of the first entry of `entries` whose key is `key`.
pub open spec fn find_entry(entries: Seq<(String, JsonValue)>, key: Seq<char>) -> Option<JsonValue>
    decreases entries.len(),
{
    if entries.len() == 0 {
        None
    } else if entries[0].0@ == key {
        Some(entries[0].1)
    } else {
        find_entry(entries.drop_first(), key)
    }
}

/// The value of field `key` of `v`; `None` when `v` is not an object or has no such field.
pub open spec fn field_of(v: JsonValue, key: Seq<char>) -> Option<JsonValue> {
    match v {
        JsonValue::Object(entries) => find_entry(entries@, key),
        _ => None,
    }
}

/// Looks up field `key` of `v`: the first entry with that key, if `v` is an object.
pub fn get_field<'a>(v: &'a JsonValue, key: &str) -> (r: Option<&'a JsonValue>)
    ensures
        r is Some <==> field_of(*v, key@) is Some,
        r matches Some(x) ==> field_of(*v, key@) == Some(*x),
{
    match v {
        JsonValue::Object(entries) => {
            let k = String::from_str(key);
            let mut i: usize = 0;
            assert(entries@.skip(0) =~= entries@);
            while i < entries.len()
                invariant
                    0 <= i <= entries@.len(),
                    k@ == key@,
                    field_of(*v, key@) == find_entry(entries@, key@),
                    find_entry(entries@, key@) == find_entry(entries@.skip(i as int), key@),
                decreases entries@.len() - i,
            {
                assert(entries@.skip(i as int).drop_first() =~= entries@.skip(i + 1));
                if entries[i].0 == k {
                    return Some(&entries[i].1);
                }
                i = i + 1;
            }
            None
        },
        _ => None,
    }
}

/// Whether `v` is a JSON object.
pub open spec fn is_object(v: JsonValue) -> bool {
    v is Object
}

/// Whether `v` is absent or `null`: how an optional field says "no value".
pub open spec fn is_absent(v: Option<JsonValue>) -> bool {
    v is None || v == Some(JsonValue::Null)
}

/// Reading field `key` of `v` as a required string.
pub open spec fn text_at(v: JsonValue, key: &'static str) -> Result<String, DecodeError> {
    match field_of(v, key@) {
        None => Err(DecodeError::MissingField(key)),
        Some(JsonValue::Str(s)) => Ok(s),
        Some(_) => Err(DecodeError::InvalidType(key)),
    }
}

/// Reading field `key` of `v` as an optional string: absent and `null` give `None`.
pub open spec fn opt_text_at(v: JsonValue, key: &'static str) -> Result<Option<String>, DecodeError> {
    match field_of(v, key@) {
        None => Ok(None),
        Some(JsonValue::Null) => Ok(None),
        Some(JsonValue::Str(s)) => Ok(Some(s)),
        Some(_) => Err(DecodeError::InvalidType(key)),
    }
}

/// Reading field `key` of `v` as a required 32-bit signed integer.
pub open spec fn int32_at(v: JsonValue, key: &'static str) -> Result<i32, DecodeError> {
    match field_of(v, key@) {
        None => Err(DecodeError::MissingField(key)),
        Some(JsonValue::Int(n)) => if i32::MIN <= n <= i32::MAX {
            Ok(n as i32)
        } else {
            Err(DecodeError::InvalidType(key))
        },
        Some(_) => Err(DecodeError::InvalidType(key)),
    }
}

/// Reading field `key` of `v` as a required value of any type.
pub open spec fn value_at(v: JsonValue, key: &'static str) -> Result<JsonValue, DecodeError> {
    match field_of(v, key@) {
        None => Err(DecodeError::MissingField(key)),
        Some(x) => Ok(x),
    }
}

/// Reads field `key` of `v` as a required string.
pub fn text_field(v: &JsonValue, key: &'static str) -> (r: Result<String, DecodeError>)
    ensures
        r == text_at(*v, key),
{
    match get_field(v, key) {
        None => Err(DecodeError::MissingField(key)),
        Some(JsonValue::Str(s)) => Ok(s.clone()),
        Some(_) => Err(DecodeError::InvalidType(key)),
    }
}

/// Reads field `key` of `v` as an optional string.
pub fn opt_text_field(v: &JsonValue, key: &'static str) -> (r: Result<Option<String>, DecodeError>)
    ensures
        r == opt_text_at(*v, key),
{
    match get_field(v, key) {
        None => Ok(None),
        Some(JsonValue::Null) => Ok(None),
        Some(JsonValue::Str(s)) => Ok(Some(s.clone())),
        Some(_) => Err(DecodeError::InvalidType(key)),
    }
}

/// Reads field `key` of `v` as a required 32-bit signed integer.
pub fn int32_field(v: &JsonValue, key: &'static str) -> (r: Result<i32, DecodeError>)
    ensures
        r == int32_at(*v, key),
{
    match get_field(v, key) {
        None => Err(DecodeError::MissingField(key)),
        Some(JsonValue::Int(n)) => if i32::MIN as i64 <= *n && *n <= i32::MAX as i64 {
            Ok(*n as i32)
        } else {
            Err(DecodeError::InvalidType(key))
        },
        Some(_) => Err(DecodeError::InvalidType(key)),
    }
}

/// Reads field `key` of `v` as a required value of any type.
pub fn value_field<'a>(v: &'a JsonValue, key: &'static str) -> (r: Result<&'a JsonValue, DecodeError>)
    ensures
        r is Ok <==> value_at(*v, key) is Ok,
        r matches Ok(x) ==> value_at(*v, key) == Ok::<JsonValue, DecodeError>(*x),
        r matches Err(e) ==> value_at(*v, key) == Err::<JsonValue, DecodeError>(e),
{
    match get_field(v, key) {
        None => Err(DecodeError::MissingField(key)),
        Some(x) => Ok(x),
    }
}

} // verus!
