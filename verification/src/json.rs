//! JSON values as the model sees them, and their primitive shapes.

use vstd::prelude::*;

verus! {

/// The number type of `serde_json`, carried through unread.
#[verifier::external_type_specification]
#[verifier::external_body]
pub struct ExNumber(serde_json::Number);

/// The value type of `serde_json`, carried through unread inside arrays and
/// objects.
#[verifier::external_type_specification]
#[verifier::external_body]
pub struct ExValue(serde_json::Value);

/// The object type of `serde_json`, carried through unread.
#[verifier::external_type_specification]
#[verifier::external_body]
#[verifier::reject_recursive_types(K)]
#[verifier::reject_recursive_types(V)]
pub struct ExMap<K, V>(serde_json::Map<K, V>);

/// `Clone::clone` of `serde_json::Number`: the copy is the same number.
pub assume_specification[ <serde_json::Number as Clone>::clone ](n: &serde_json::Number) -> (r:
    serde_json::Number)
    ensures
        r == *n,
;

/// `Clone::clone` of `serde_json::Value`: the copy is the same value.
pub assume_specification[ <serde_json::Value as Clone>::clone ](v: &serde_json::Value) -> (r:
    serde_json::Value)
    ensures
        r == *v,
;

/// `Clone::clone` of `serde_json::Map<String, Value>`: the copy is the same
/// object.
pub assume_specification[ <serde_json::Map<String, serde_json::Value> as Clone>::clone ](
    m: &serde_json::Map<String, serde_json::Value>,
) -> (r: serde_json::Map<String, serde_json::Value>)
    ensures
        r == *m,
;

/// The primitive shape of a JSON value.
#[derive(Clone, Copy, Debug, PartialEq, Eq, Structural)]
pub enum JsonType {
    Null,
    Bool,
    Number,
    String,
    Array,
    Object,
}

/// A JSON value, opened one level: enough to tell its shape and to read a
/// string. Numbers and the contents of arrays and objects are held as
/// `serde_json` has them; the model never looks inside one.
#[derive(Debug, PartialEq)]
pub enum JsonValue {
    Null,
    Bool(bool),
    Number(serde_json::Number),
    String(String),
    Array(Vec<serde_json::Value>),
    Object(serde_json::Map<String, serde_json::Value>),
}

impl JsonValue {
    /// The shape of this value, by its outermost constructor alone.
    pub open spec fn json_type(self) -> JsonType {
        match self {
            JsonValue::Null => JsonType::Null,
            JsonValue::Bool(_) => JsonType::Bool,
            JsonValue::Number(_) => JsonType::Number,
            JsonValue::String(_) => JsonType::String,
            JsonValue::Array(_) => JsonType::Array,
            JsonValue::Object(_) => JsonType::Object,
        }
    }

    /// The text of a string value; `None` for every other shape.
    pub open spec fn text(self) -> Option<Seq<char>> {
        match self {
            JsonValue::String(s) => Some(s@),
            _ => None,
        }
    }

    /// The two values are the same: equal, or arrays of the same items.
    pub open spec fn same(self, other: JsonValue) -> bool {
        match (self, other) {
            (JsonValue::Array(a), JsonValue::Array(b)) => a@ == b@,
            _ => self == other,
        }
    }

    /// The two values read the same to the model: they have the same shape,
    /// and if they are strings, the same text.
    pub open spec fn alike(self, other: JsonValue) -> bool {
        self.json_type() == other.json_type() && self.text() == other.text()
    }

    /// The text of a string value; `None` for a value of any other shape.
    pub fn as_str(&self) -> (r: Option<&str>)
        ensures
            match r {
                Some(s) => self.text() == Some(s@),
                None => self.text().is_none(),
            },
    {
        match self {
            JsonValue::String(s) => Some(s.as_str()),
            _ => None,
        }
    }
}

impl Clone for JsonValue {
    /// A copy of the value.
    fn clone(&self) -> (r: Self)
        ensures
            self.same(r),
    {
        match self {
            JsonValue::Null => JsonValue::Null,
            JsonValue::Bool(b) => JsonValue::Bool(*b),
            JsonValue::Number(n) => JsonValue::Number(n.clone()),
            JsonValue::String(s) => JsonValue::String(s.clone()),
            JsonValue::Array(items) => JsonValue::Array(items.clone()),
            JsonValue::Object(members) => JsonValue::Object(members.clone()),
        }
    }
}

impl JsonType {
    /// The shape of `value`, found by inspecting its constructor; nothing is
    /// coerced.
    pub fn of(value: &JsonValue) -> (t: JsonType)
        ensures
            t == value.json_type(),
    {
        match value {
            JsonValue::Null => JsonType::Null,
            JsonValue::Bool(_) => JsonType::Bool,
            JsonValue::Number(_) => JsonType::Number,
            JsonValue::String(_) => JsonType::String,
            JsonValue::Array(_) => JsonType::Array,
            JsonValue::Object(_) => JsonType::Object,
        }
    }
}

} // verus!
