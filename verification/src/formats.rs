//! What the library takes on trust from the YAML and JSON crates: the calls
//! that carry a configuration text to its canonical form, and the step from
//! a JSON value to a canonical document.
//!
//! Nothing here is proved. Each call is a function of its argument alone, so
//! each result has a name; the contracts of the loader speak of those names
//! and fix everything that follows the calls.

use crate::document::{Document, Field};
use serde_json::Value;
use vstd::prelude::*;

verus! {

/// The tree that the YAML reader fills: `schemars::schema::RootSchema`. It is
/// carried from the reader to the writer and never looked into.
#[verifier::external_type_specification]
#[verifier::external_body]
pub struct ExRootSchema(schemars::schema::RootSchema);

/// The error of the YAML reader, `serde_yaml::Error`.
#[verifier::external_type_specification]
#[verifier::external_body]
pub struct ExYamlError(serde_yaml::Error);

/// The error of the JSON reader and writer, `serde_json::Error`.
#[verifier::external_type_specification]
#[verifier::external_body]
pub struct ExJsonError(serde_json::Error);

/// The tree that the JSON reader fills, `serde_json::Value`.
#[verifier::external_type_specification]
#[verifier::external_body]
pub struct ExJsonValue(Value);

/// The tree that `serde_yaml::from_str` reads out of a YAML text at the type
/// `RootSchema`, or `None` where it refuses the text: a text that is no YAML
/// mapping, or one that gives a keyword of JSON Schema a value of another
/// shape than the keyword has.
pub uninterp spec fn yaml_tree(text: Seq<char>) -> Option<schemars::schema::RootSchema>;

/// The JSON text that `serde_json::to_string_pretty` writes for a tree, or
/// `None` where it fails.
pub uninterp spec fn rendered_json(tree: schemars::schema::RootSchema) -> Option<Seq<char>>;

/// The value that `serde_json::from_str` reads out of a JSON text, or `None`
/// where it refuses the text.
pub uninterp spec fn json_value(text: Seq<char>) -> Option<Value>;

/// What a JSON value holds, as a canonical document.
pub uninterp spec fn value_document(value: Value) -> Document;

/// Calls `serde_yaml::from_str` at the type `RootSchema`. The result is a
/// function of the text alone; the contract gives it a name and claims no
/// more.
#[verifier::external_body]
pub(crate) fn parse_yaml(text: &str) -> (r: Result<schemars::schema::RootSchema, serde_yaml::Error>)
    ensures
        match r {
            Ok(tree) => yaml_tree(text@) == Some(tree),
            Err(_) => yaml_tree(text@) is None,
        },
{
    serde_yaml::from_str::<schemars::schema::RootSchema>(text)
}

/// Calls `serde_json::to_string_pretty` on a `RootSchema`. The result is a
/// function of the tree alone; the contract gives it a name and claims no
/// more.
#[verifier::external_body]
pub(crate) fn render_json(tree: &schemars::schema::RootSchema) -> (r: Result<
    String,
    serde_json::Error,
>)
    ensures
        match r {
            Ok(json) => rendered_json(*tree) == Some(json@),
            Err(_) => rendered_json(*tree) is None,
        },
{
    serde_json::to_string_pretty(tree)
}

/// Calls `serde_json::from_str` at the type `Value`. The result is a function
/// of the text alone; the contract gives it a name and claims no more.
#[verifier::external_body]
pub(crate) fn parse_json(text: &str) -> (r: Result<Value, serde_json::Error>)
    ensures
        match r {
            Ok(value) => json_value(text@) == Some(value),
            Err(_) => json_value(text@) is None,
        },
{
    serde_json::from_str::<Value>(text)
}

/// Moves what a `serde_json::Value` holds into a `Document`, variant by
/// variant and child by child. A number becomes `Unsigned` where
/// `Number::as_u64` gives it, `Negative` where only `Number::as_i64` does,
/// and `Real` otherwise; the entries of an object come in the order in which
/// `Map::iter` hands them out. The contract names the result and claims no
/// more.
#[verifier::external_body]
pub(crate) fn document_of(value: &Value) -> (doc: Document)
    ensures
        doc == value_document(*value),
{
    match value {
        Value::Null => Document::Null,
        Value::Bool(b) => Document::Bool(*b),
        Value::Number(n) => match (n.as_u64(), n.as_i64()) {
            (Some(u), _) => Document::Unsigned(u),
            (None, Some(i)) => Document::Negative(i),
            (None, None) => Document::Real,
        },
        Value::String(s) => Document::Text(s.clone()),
        Value::Array(items) => Document::List(items.iter().map(document_of).collect()),
        Value::Object(entries) => Document::Record(
            entries.iter().map(|(k, v)| Field { name: k.clone(), value: document_of(v) }).collect(),
        ),
    }
}

} // verus!
