//! JSON documents as plain values.
//!
//! Decoding is left to `serde_json`; the tree it builds is copied into
//! `JsonValue`, on which the rest of the crate works.

use vstd::prelude::*;
use vstd::string::StringExecFns;

verus! {

/// A JSON value.
#[derive(Debug)]
pub enum JsonValue {
    Null,
    Bool(bool),
    /// A number, with its value where it is an integer that fits in 64 bits.
    Number(Option<i64>),
    Text(String),
    Array(Vec<JsonValue>),
    /// An object, as its members in the order the decoder lists them.
    Object(Vec<(String, JsonValue)>),
}

/// The value of the first member named `key`.
pub open spec fn lookup(members: Seq<(String, JsonValue)>, key: Seq<char>) -> Option<JsonValue>
    decreases members.len(),
{
    if members.len() == 0 {
        None
    } else if members[0].0@ == key {
        Some(members[0].1)
    } else {
        lookup(members.drop_first(), key)
    }
}

impl JsonValue {
    /// The member named `key`, where this value is an object that has one.
    pub open spec fn spec_member(self, key: Seq<char>) -> Option<JsonValue> {
        match self {
            JsonValue::Object(members) => lookup(members@, key),
            _ => None,
        }
    }

    /// The integer this value holds, where it is an integral number.
    pub open spec fn spec_integer(self) -> Option<int> {
        match self {
            JsonValue::Number(Some(n)) => Some(n as int),
            _ => None,
        }
    }

    /// The text this value holds, where it is a string.
    pub open spec fn spec_text(self) -> Option<Seq<char>> {
        match self {
            JsonValue::Text(s) => Some(s@),
            _ => None,
        }
    }

    /// Tells whether this value is an object.
    pub fn is_object(&self) -> (r: bool)
        ensures
            r == (self is Object),
    {
        match self {
            JsonValue::Object(_) => true,
            _ => false,
        }
    }

    /// Looks up the member named `key`.
    pub fn member(&self, key: &str) -> (r: Option<&JsonValue>)
        ensures
            match r {
                Some(v) => self.spec_member(key@) == Some(*v),
                None => self.spec_member(key@) is None,
            },
    {
        match self {
            JsonValue::Object(members) => {
                let wanted = String::from_str(key);
                let mut i: usize = 0;
                proof {
                    assert(members@.skip(0) =~= members@);
                }
                while i < members.len()
                    invariant
                        i <= members.len(),
                        wanted@ == key@,
                        self.spec_member(key@) == lookup(members@, key@),
                        lookup(members@, key@) == lookup(members@.skip(i as int), key@),
                    decreases members.len() - i,
                {
                    proof {
                        let rest = members@.skip(i as int);
                        assert(rest.drop_first() =~= members@.skip(i + 1));
                    }
                    if members[i].0 == wanted {
                        return Some(&members[i].1);
                    }
                    i += 1;
                }
                None
            },
            _ => None,
        }
    }

    /// Reads this value as an integer.
    pub fn as_integer(&self) -> (r: Option<i64>)
        ensures
            match r {
                Some(n) => self.spec_integer() == Some(n as int),
                None => self.spec_integer() is None,
            },
    {
        match self {
            JsonValue::Number(Some(n)) => Some(*n),
            _ => None,
        }
    }

    /// Reads this value as text.
    pub fn as_text(&self) -> (r: Option<&str>)
        ensures
            match r {
                Some(s) => self.spec_text() == Some(s@),
                None => self.spec_text() is None,
            },
    {
        match self {
            JsonValue::Text(s) => Some(s.as_str()),
            _ => None,
        }
    }
}

/// Text that is not a JSON document.
#[derive(Debug, Clone, Copy, PartialEq, Eq, Structural)]
pub enum JsonError {
    Malformed,
}

/// `serde_json::Value`, taken as it is: nothing of its contents is visible
/// to the verifier.
#[verifier::external_type_specification]
#[verifier::external_body]
pub struct ExSerdeJsonValue(serde_json::Value);

/// `serde_json::Error`, taken as it is.
#[verifier::external_type_specification]
#[verifier::external_body]
pub struct ExSerdeJsonError(serde_json::Error);

/// What decoding `text` with `serde_json::from_str` comes to: the decoded
/// value as a `JsonValue`, or `None` where the decoder reports an error.
pub uninterp spec fn json_document(text: Seq<char>) -> Option<JsonValue>;

/// Copies a `serde_json::Value` into a `JsonValue`, variant by variant: a
/// number becomes what `serde_json::Number::as_i64` returns for it, an
/// object the list of its members in the order of `serde_json::Map::iter`.
/// Nothing is assumed of the result.
#[verifier::external_body]
fn copy_value(value: &serde_json::Value) -> JsonValue {
    match value {
        serde_json::Value::Null => JsonValue::Null,
        serde_json::Value::Bool(b) => JsonValue::Bool(*b),
        serde_json::Value::Number(n) => JsonValue::Number(n.as_i64()),
        serde_json::Value::String(s) => JsonValue::Text(s.clone()),
        serde_json::Value::Array(items) => JsonValue::Array(items.iter().map(copy_value).collect()),
        serde_json::Value::Object(map) => JsonValue::Object(
            map.iter().map(|(k, v)| (k.clone(), copy_value(v))).collect(),
        ),
    }
}

/// Decodes `text` with `serde_json::from_str` into a `serde_json::Value` and
/// copies the value. What is assumed: the outcome depends on the text alone.
/// Whether decoding succeeds, and the value where it does, are what
/// `json_document` names; nothing is assumed of what that value is.
#[verifier::external_body]
fn decode(text: &str) -> (r: Result<JsonValue, serde_json::Error>)
    ensures
        match r {
            Ok(value) => json_document(text@) == Some(value),
            Err(_) => json_document(text@) is None,
        },
{
    match serde_json::from_str::<serde_json::Value>(text) {
        Ok(value) => Ok(copy_value(&value)),
        Err(error) => Err(error),
    }
}

/// Decodes a JSON document.
pub fn parse_json(text: &str) -> (r: Result<JsonValue, JsonError>)
    ensures
        match r {
            Ok(value) => json_document(text@) == Some(value),
            Err(e) => json_document(text@) is None && e == JsonError::Malformed,
        },
{
    match decode(text) {
        Ok(value) => Ok(value),
        Err(_) => Err(JsonError::Malformed),
    }
}

} // verus!
