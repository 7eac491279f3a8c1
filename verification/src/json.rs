//! JSON replies of `gh` as plain values, and the lookups the replies are
//! read with. Parsing the bytes is left to `serde_json`.

use vstd::prelude::*;

verus! {

/// A JSON value, as `serde_json::Value` holds it, with of each number what
/// is read of it: its value when it is an integer in `u64`'s range (what
/// `Number::as_u64` gives).
#[derive(Debug)]
pub enum JsonValue {
    Null,
    Bool(bool),
    Number(Option<u64>),
    String(String),
    Array(Vec<JsonValue>),
    /// The members of an object.
    Object(Vec<(String, JsonValue)>),
}

#[verifier::external_type_specification]
#[verifier::external_body]
pub struct ExSerdeJsonValue(serde_json::Value);

/// The first member, at or after `i`, named `key`.
pub open spec fn member_from(members: Seq<(String, JsonValue)>, key: Seq<char>, i: int) -> Option<JsonValue>
    decreases members.len() - i,
{
    if i < 0 || i >= members.len() {
        None
    } else if members[i].0@ == key {
        Some(members[i].1)
    } else {
        member_from(members, key, i + 1)
    }
}

/// `value[key]`: the member named `key` of an object, `Null` otherwise.
pub open spec fn field(v: JsonValue, key: Seq<char>) -> JsonValue {
    match v {
        JsonValue::Object(members) => match member_from(members@, key, 0) {
            Some(x) => x,
            None => JsonValue::Null,
        },
        _ => JsonValue::Null,
    }
}

/// `Value::as_str`.
pub open spec fn as_str(v: JsonValue) -> Option<Seq<char>> {
    match v {
        JsonValue::String(s) => Some(s@),
        _ => None,
    }
}

/// `Value::as_u64`.
pub open spec fn as_u64(v: JsonValue) -> Option<u64> {
    match v {
        JsonValue::Number(n) => n,
        _ => None,
    }
}

impl JsonValue {
    /// The member named `key`, when `self` is an object that has one.
    pub fn member(&self, key: &str) -> (r: Option<&JsonValue>)
        ensures
            match r {
                Some(x) => self is Object && member_from(self->Object_0@, key@, 0) == Some(*x),
                None => !(self is Object) || member_from(self->Object_0@, key@, 0) is None,
            },
    {
        match self {
            JsonValue::Object(members) => {
                let mut i: usize = 0;
                while i < members.len()
                    invariant
                        i <= members@.len(),
                        self is Object && self->Object_0 == *members,
                        member_from(members@, key@, 0) == member_from(members@, key@, i as int),
                    decreases members@.len() - i,
                {
                    if members[i].0.as_str().to_owned() == key.to_owned() {
                        return Some(&members[i].1);
                    }
                    i = i + 1;
                }
                None
            },
            _ => None,
        }
    }

    /// `value[key].as_str()`.
    pub fn field_str(&self, key: &str) -> (r: Option<&str>)
        ensures
            match r {
                Some(s) => as_str(field(*self, key@)) == Some(s@),
                None => as_str(field(*self, key@)) is None,
            },
    {
        match self.member(key) {
            Some(JsonValue::String(s)) => Some(s.as_str()),
            _ => None,
        }
    }

    /// `value[key].as_u64()`.
    pub fn field_u64(&self, key: &str) -> (r: Option<u64>)
        ensures
            r == as_u64(field(*self, key@)),
    {
        match self.member(key) {
            Some(JsonValue::Number(n)) => *n,
            _ => None,
        }
    }
}

/// What `serde_json::from_slice::<Value>` gives for some bytes: the value,
/// or the text of the error.
pub uninterp spec fn json_parse(bytes: Seq<u8>) -> Result<JsonValue, Seq<char>>;

/// What `serde_json::from_slice::<Vec<Value>>` gives for some bytes: the
/// values, or the text of the error.
pub uninterp spec fn json_parse_list(bytes: Seq<u8>) -> Result<Seq<JsonValue>, Seq<char>>;

/// Turns a `serde_json::Value` into a [`JsonValue`], variant by variant; of
/// a number it keeps `as_u64`.
#[verifier::external_body]
fn json_from_serde(v: serde_json::Value) -> JsonValue {
    match v {
        serde_json::Value::Null => JsonValue::Null,
        serde_json::Value::Bool(b) => JsonValue::Bool(b),
        serde_json::Value::Number(n) => JsonValue::Number(n.as_u64()),
        serde_json::Value::String(s) => JsonValue::String(s),
        serde_json::Value::Array(a) => JsonValue::Array(a.into_iter().map(json_from_serde).collect()),
        serde_json::Value::Object(m) => JsonValue::Object(m.into_iter().map(|(k, v)| (k, json_from_serde(v))).collect()),
    }
}

/// Calls `serde_json::from_slice::<serde_json::Value>`; the contract names
/// the outcome ([`json_parse`]).
#[verifier::external_body]
pub(crate) fn parse_json(bytes: &[u8]) -> (r: Result<JsonValue, String>)
    ensures
        match r {
            Ok(v) => json_parse(bytes@) == Ok::<JsonValue, Seq<char>>(v),
            Err(e) => json_parse(bytes@) == Err::<JsonValue, Seq<char>>(e@),
        },
{
    match serde_json::from_slice::<serde_json::Value>(bytes) {
        Ok(v) => Ok(json_from_serde(v)),
        Err(e) => Err(e.to_string()),
    }
}

/// Calls `serde_json::from_slice::<Vec<serde_json::Value>>`; the contract
/// names the outcome ([`json_parse_list`]).
#[verifier::external_body]
pub(crate) fn parse_json_list(bytes: &[u8]) -> (r: Result<Vec<JsonValue>, String>)
    ensures
        match r {
            Ok(v) => json_parse_list(bytes@) == Ok::<Seq<JsonValue>, Seq<char>>(v@),
            Err(e) => json_parse_list(bytes@) == Err::<Seq<JsonValue>, Seq<char>>(e@),
        },
{
    match serde_json::from_slice::<Vec<serde_json::Value>>(bytes) {
        Ok(v) => Ok(v.into_iter().map(json_from_serde).collect()),
        Err(e) => Err(e.to_string()),
    }
}

} // verus!
