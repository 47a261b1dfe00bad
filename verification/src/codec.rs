//! The text form of JSON values. `serde_json` writes and reads the text; this
//! module names what it produces and accepts a text for storage only after it
//! has been read back as the value it was written from.

use vstd::prelude::*;
use crate::json::JsonNumber;
use crate::json::JsonTree;
use crate::json::JsonValue;
use serde_json::Number;
use serde_json::Value;

verus! {

/// `serde_json::Value`, of which nothing is known here: it only passes between
/// the two converters below and the calls into `serde_json`.
#[verifier::external_type_specification]
#[verifier::external_body]
pub struct ExValue(serde_json::Value);

/// The compact text that `serde_json` writes for the `serde_json::Value` that
/// [`lower`] builds from a tree; none where `lower` builds none. Nothing more is
/// known of it than that it depends on the tree alone.
pub uninterp spec fn printed(v: JsonTree) -> Option<Seq<char>>;

/// The value that `serde_json` reads from a text, as [`lift`] hands it on, where
/// `serde_json` reads one. Nothing more is known of it than that it depends on
/// the text alone.
pub uninterp spec fn parsed(s: Seq<char>) -> Option<JsonTree>;

/// Builds the `serde_json::Value` for a tree, node for node: an integer through
/// `Number::from_i128`, a float literal through `serde_json::from_str` for a
/// `Number`, the members of an object collected into `serde_json::Map`. Where
/// `serde_json` declines an integer or a literal, no value is built. Nothing is
/// claimed of the result.
#[verifier::external_body]
fn lower(v: &JsonValue) -> Option<Value> {
    Some(match v {
        JsonValue::Null => Value::Null,
        JsonValue::Bool(b) => Value::Bool(*b),
        JsonValue::Number(JsonNumber::Int(n)) => Value::Number(Number::from_i128(*n)?),
        JsonValue::Number(JsonNumber::Float(t)) => Value::Number(serde_json::from_str(t).ok()?),
        JsonValue::String(s) => Value::String(s.clone()),
        JsonValue::Array(items) => Value::Array(items.iter().map(lower).collect::<Option<_>>()?),
        JsonValue::Object(members) => Value::Object(
            members.iter().map(|m| Some((m.0.clone(), lower(&m.1)?))).collect::<Option<_>>()?,
        ),
    })
}

/// Builds the tree for a `serde_json::Value`, node for node. A number that
/// `Number::as_i128` declines is kept as the literal that `Number::to_string`
/// writes. Nothing is claimed of the result.
#[verifier::external_body]
fn lift(v: &Value) -> JsonValue {
    match v {
        Value::Null => JsonValue::Null,
        Value::Bool(b) => JsonValue::Bool(*b),
        Value::Number(n) => JsonValue::Number(match n.as_i128() {
            Some(i) => JsonNumber::Int(i),
            None => JsonNumber::Float(n.to_string()),
        }),
        Value::String(s) => JsonValue::String(s.clone()),
        Value::Array(items) => JsonValue::Array(items.iter().map(lift).collect()),
        Value::Object(members) => JsonValue::Object(
            members.iter().map(|m| (m.0.clone(), lift(m.1))).collect(),
        ),
    }
}

/// Calls `serde_json::Value::to_string` on what [`lower`] builds. The contract
/// only gives the outcome a name: the same tree always yields the same text, or
/// never any.
#[verifier::external_body]
pub(crate) fn print(v: &JsonValue) -> (r: Option<String>)
    ensures
        match r {
            Some(s) => printed(v@) == Some(s@),
            None => printed(v@) is None,
        },
{
    lower(v).map(|x| x.to_string())
}

/// Calls `serde_json::from_str` for a `serde_json::Value` and hands the value
/// to [`lift`]. The contract only gives the outcome a name: the same text
/// always yields the same value, or is always refused.
#[verifier::external_body]
pub(crate) fn parse(s: &str) -> (r: Option<JsonValue>)
    ensures
        match r {
            Some(v) => parsed(s@) == Some(v@),
            None => parsed(s@) is None,
        },
{
    serde_json::from_str::<Value>(s).ok().map(|v| lift(&v))
}

/// Whether a value survives storage: a text is written for it, and that text
/// reads back as the same value.
pub open spec fn storable(v: JsonTree) -> bool {
    printed(v) is Some && parsed(printed(v)->0) == Some(v)
}

/// The text under which a value is stored; none where it would not read back.
pub open spec fn serialized(v: JsonTree) -> Option<Seq<char>> {
    if storable(v) {
        printed(v)
    } else {
        None
    }
}

/// The value that a stored text stands for; none where the text is corrupted.
pub open spec fn deserialized(s: Seq<char>) -> Option<JsonTree> {
    parsed(s)
}

/// Accepts `text` as the stored form of `v` if `back`, the value read from it,
/// is `v` again.
pub fn confirm(v: &JsonValue, text: String, back: &Option<JsonValue>) -> (r: Option<String>)
    ensures
        match r {
            Some(t) => t@ == text@ && back is Some && back->0@ == v@,
            None => !(back is Some && back->0@ == v@),
        },
{
    match back {
        Some(b) => {
            if *b == *v {
                Some(text)
            } else {
                None
            }
        },
        None => None,
    }
}

/// The text under which `v` is stored. A value whose text would not read back
/// as the same value is refused, so that whatever is stored can be restored.
pub fn serialize(v: &JsonValue) -> (r: Option<String>)
    ensures
        match r {
            Some(t) => serialized(v@) == Some(t@),
            None => serialized(v@) is None,
        },
{
    match print(v) {
        Some(text) => {
            let back = parse(text.as_str());
            confirm(v, text, &back)
        },
        None => None,
    }
}

/// The value that a stored text stands for.
pub fn deserialize(s: &str) -> (r: Option<JsonValue>)
    ensures
        match r {
            Some(v) => deserialized(s@) == Some(v@),
            None => deserialized(s@) is None,
        },
{
    parse(s)
}

/// Reading back what was written restores the value: for every value that
/// `serialize` accepts, `deserialize` of its text is that value.
pub proof fn round_trip(v: JsonTree)
    requires
        serialized(v) is Some,
    ensures
        deserialized(serialized(v)->0) == Some(v),
{
}

impl JsonValue {
    /// The compact JSON text of this value; none where the value holds a number
    /// that is no JSON number: an integer beyond 64 bits or a literal that is no
    /// number.
    pub fn to_text(&self) -> (r: Option<String>)
        ensures
            match r {
                Some(s) => printed(self@) == Some(s@),
                None => printed(self@) is None,
            },
    {
        print(self)
    }

    /// The value that a JSON text describes; none where the text is no JSON.
    pub fn from_text(s: &str) -> (r: Option<JsonValue>)
        ensures
            match r {
                Some(v) => parsed(s@) == Some(v@),
                None => parsed(s@) is None,
            },
    {
        parse(s)
    }
}

} // verus!
