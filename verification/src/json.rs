//! A JSON document as plain values, and the call into serde_json that reads one.
//!
//! The JSON grammar is serde_json's; what a document must hold to be an
//! observation file is this library's own logic (see the parser).

use vstd::prelude::*;

verus! {

/// A JSON value.
#[derive(Debug)]
pub enum JsonValue {
    /// `null`.
    Null,
    /// `true` or `false`.
    Bool(bool),
    /// A number, as serde_json spells it.
    Number(String),
    /// A string.
    Text(String),
    /// An array.
    Array(Vec<JsonValue>),
    /// An object's members.
    Object(Vec<(String, JsonValue)>),
}

/// The mathematical form of a JSON value.
pub enum JsonView {
    /// `null`.
    Null,
    /// `true` or `false`.
    Bool(bool),
    /// A number's spelling.
    Number(Seq<char>),
    /// A string.
    Text(Seq<char>),
    /// An array.
    Array(Seq<JsonView>),
    /// An object's members: their keys, and their values in the same order.
    Object(Seq<Seq<char>>, Seq<JsonView>),
}

impl View for JsonValue {
    type V = JsonView;

    open spec fn view(&self) -> JsonView
        decreases self,
    {
        match self {
            JsonValue::Null => JsonView::Null,
            JsonValue::Bool(b) => JsonView::Bool(*b),
            JsonValue::Number(n) => JsonView::Number(n@),
            JsonValue::Text(t) => JsonView::Text(t@),
            JsonValue::Array(items) => JsonView::Array(
                Seq::new(
                    items@.len(),
                    |i: int|
                        if 0 <= i < items@.len() {
                            items@[i].view()
                        } else {
                            JsonView::Null
                        },
                ),
            ),
            JsonValue::Object(members) => JsonView::Object(
                Seq::new(members@.len(), |i: int| members@[i].0@),
                Seq::new(
                    members@.len(),
                    |i: int|
                        if 0 <= i < members@.len() {
                            members@[i].1.view()
                        } else {
                            JsonView::Null
                        },
                ),
            ),
        }
    }
}

#[verifier::external_type_specification]
#[verifier::external_body]
pub struct ExJsonValue(serde_json::Value);

/// Named result of `serde_json::from_str::<serde_json::Value>` on a text: the
/// document read, or the line and column of the first syntax error.
pub uninterp spec fn spec_json_document(text: Seq<char>) -> Result<JsonView, (int, int)>;

/// Converts a document that serde_json has read into plain values, one for one:
/// each variant of `serde_json::Value` becomes the same variant here; a number
/// becomes serde_json's spelling of it.
#[verifier::external_body]
fn json_tree(v: serde_json::Value) -> JsonValue {
    match v {
        serde_json::Value::Null => JsonValue::Null,
        serde_json::Value::Bool(b) => JsonValue::Bool(b),
        serde_json::Value::Number(n) => JsonValue::Number(n.to_string()),
        serde_json::Value::String(s) => JsonValue::Text(s),
        serde_json::Value::Array(items) => JsonValue::Array(items.into_iter().map(json_tree).collect()),
        serde_json::Value::Object(members) => JsonValue::Object(
            members.into_iter().map(|(k, x)| (k, json_tree(x))).collect(),
        ),
    }
}

/// Reads `input` with `serde_json::from_str::<serde_json::Value>`.
///
/// The contract claims only that the outcome is a function of the text: the
/// document read (`Ok`) or the position of the syntax error (`Err`), both named
/// by [`spec_json_document`]. What JSON grammar serde_json accepts, and that an
/// object never repeats a key in what it returns (a repeated key keeps its last
/// value), is serde_json's and is not stated here.
#[verifier::external_body]
pub(crate) fn read_json(input: &str) -> (r: Result<JsonValue, (usize, usize)>)
    ensures
        match r {
            Ok(v) => spec_json_document(input@) == Ok::<JsonView, (int, int)>(v@),
            Err((line, column)) => spec_json_document(input@) == Err::<JsonView, (int, int)>(
                (line as int, column as int),
            ),
        },
{
    match serde_json::from_str::<serde_json::Value>(input) {
        Ok(v) => Ok(json_tree(v)),
        Err(e) => Err((e.line(), e.column())),
    }
}

} // verus!
