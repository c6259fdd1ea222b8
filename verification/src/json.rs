//! The library's own JSON model. Inbound text is parsed by serde_json
//! behind a trusted boundary and mirrored into `JsonValue`; everything
//! that reads the tree afterwards is verified.
use vstd::prelude::*;

use crate::text::str_eq;

verus! {

/// A JSON tree as the decoder reads it. Numbers the engines care about
/// are integers; a number with no integer value is kept only as a mark,
/// since no engine reads one.
pub enum JsonValue {
    Null,
    Bool(bool),
    /// A number with an integer value fitting `i64`.
    Int(i64),
    /// A positive integer above `i64::MAX`.
    UInt(u64),
    /// A number with no integer value.
    Float,
    Str(String),
    Array(Vec<JsonValue>),
    Object(Vec<(String, JsonValue)>),
}

/// Relies on serde_json::Value as the carrier of a parsed tree; the type
/// is declared opaque and only the mirror below looks inside it.
#[verifier::external_type_specification]
#[verifier::external_body]
pub struct ExSerdeValue(serde_json::Value);

/// What parsing a given text yields: the result of `serde_json::from_str`
/// depends on the text alone.
pub uninterp spec fn json_of(s: Seq<char>) -> Option<JsonValue>;

/// Relies on serde_json::Value: each arm of the parsed tree is mirrored
/// into the library's own model, moving the values over one for one.
#[verifier::external_body]
fn model_of_value(v: &serde_json::Value) -> JsonValue {
    match v {
        serde_json::Value::Null => JsonValue::Null,
        serde_json::Value::Bool(b) => JsonValue::Bool(*b),
        serde_json::Value::Number(n) => n.as_i64().map(JsonValue::Int).or_else(
            || n.as_u64().map(JsonValue::UInt),
        ).unwrap_or(JsonValue::Float),
        serde_json::Value::String(s) => JsonValue::Str(s.clone()),
        serde_json::Value::Array(a) => JsonValue::Array(a.iter().map(model_of_value).collect()),
        serde_json::Value::Object(m) => JsonValue::Object(
            m.iter().map(|(k, x)| (k.clone(), model_of_value(x))).collect(),
        ),
    }
}

/// Relies on serde_json::from_str: parses JSON text into the model, or
/// nothing when the text is not valid JSON. The result is a function of
/// the text alone.
#[verifier::external_body]
pub fn parse_json(text: &str) -> (r: Option<JsonValue>)
    ensures
        r == json_of(text@),
{
    match serde_json::from_str::<serde_json::Value>(text) {
        Ok(v) => Some(model_of_value(&v)),
        Err(_) => None,
    }
}

/// First binding of `key` among an object's fields.
pub open spec fn lookup_field(fields: Seq<(String, JsonValue)>, key: Seq<char>) -> Option<
    JsonValue,
>
    decreases fields.len(),
{
    if fields.len() == 0 {
        None
    } else if fields.first().0@ == key {
        Some(fields.first().1)
    } else {
        lookup_field(fields.drop_first(), key)
    }
}

/// Field access: the value under `key` when `v` is an object that has it.
pub open spec fn json_get(v: JsonValue, key: Seq<char>) -> Option<JsonValue> {
    match v {
        JsonValue::Object(fields) => lookup_field(fields@, key),
        _ => None,
    }
}

/// The string under `key`, when there is one.
pub open spec fn get_str(v: JsonValue, key: Seq<char>) -> Option<Seq<char>> {
    match json_get(v, key) {
        Some(JsonValue::Str(s)) => Some(s@),
        _ => None,
    }
}

/// The boolean under `key`, when there is one.
pub open spec fn get_bool(v: JsonValue, key: Seq<char>) -> Option<bool> {
    match json_get(v, key) {
        Some(JsonValue::Bool(b)) => Some(b),
        _ => None,
    }
}

/// The integer value of a JSON number, when it has one.
pub open spec fn int_val(v: JsonValue) -> Option<int> {
    match v {
        JsonValue::Int(i) => Some(i as int),
        JsonValue::UInt(u) => Some(u as int),
        _ => None,
    }
}

/// The integer under `key`, when there is one.
pub open spec fn get_int(v: JsonValue, key: Seq<char>) -> Option<int> {
    match json_get(v, key) {
        Some(w) => int_val(w),
        None => None,
    }
}

/// Whether the value under `key` is a number of any kind.
pub open spec fn has_number(v: JsonValue, key: Seq<char>) -> bool {
    match json_get(v, key) {
        Some(JsonValue::Int(_)) => true,
        Some(JsonValue::UInt(_)) => true,
        Some(JsonValue::Float) => true,
        _ => false,
    }
}

impl JsonValue {
    /// Field access on an object, first binding wins.
    pub fn get<'a>(&'a self, key: &str) -> (r: Option<&'a JsonValue>)
        ensures
            match r {
                Some(x) => json_get(*self, key@) == Some(*x),
                None => json_get(*self, key@) is None,
            },
    {
        match self {
            JsonValue::Object(fields) => {
                let n = fields.len();
                let mut i: usize = 0;
                proof {
                    assert(fields@.skip(0) =~= fields@);
                }
                while i < n
                    invariant
                        *self is Object,
                        self->Object_0 == *fields,
                        0 <= i <= n == fields@.len(),
                        lookup_field(fields@, key@) == lookup_field(
                            fields@.skip(i as int),
                            key@,
                        ),
                    decreases n - i,
                {
                    let pair = &fields[i];
                    proof {
                        assert(fields@.skip(i as int).first() == fields@[i as int]);
                        assert(fields@.skip(i as int).drop_first() =~= fields@.skip(i + 1));
                    }
                    if str_eq(pair.0.as_str(), key) {
                        proof {
                            assert(lookup_field(fields@.skip(i as int), key@) == Some(
                                fields@[i as int].1,
                            ));
                            assert(json_get(*self, key@) == Some(fields@[i as int].1));
                            assert(pair.1 == fields@[i as int].1);
                        }
                        return Some(&pair.1);
                    }
                    i = i + 1;
                }
                None
            },
            _ => None,
        }
    }

    /// Whether this value is a number of any kind.
    pub fn is_number(&self) -> (r: bool)
        ensures
            r == (self is Int || self is UInt || self is Float),
    {
        match self {
            JsonValue::Int(_) => true,
            JsonValue::UInt(_) => true,
            JsonValue::Float => true,
            _ => false,
        }
    }

    /// The signed value of this number, when it fits `i64`.
    pub fn as_int(&self) -> (r: Option<i64>)
        ensures
            match r {
                Some(v) => *self == JsonValue::Int(v),
                None => !(*self is Int),
            },
    {
        match self {
            JsonValue::Int(i) => Some(*i),
            _ => None,
        }
    }

    /// The unsigned value of this number, when it has one.
    pub fn as_u64(&self) -> (r: Option<u64>)
        ensures
            match r {
                Some(v) => int_val(*self) == Some(v as int),
                None => match int_val(*self) {
                    Some(x) => x < 0,
                    None => true,
                },
            },
    {
        match self {
            JsonValue::Int(i) => if *i >= 0 {
                Some(*i as u64)
            } else {
                None
            },
            JsonValue::UInt(u) => Some(*u),
            _ => None,
        }
    }
}

} // verus!
