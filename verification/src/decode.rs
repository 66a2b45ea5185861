//! Decoding an extracted span: a JSON object into metadata, a JSON array of
//! strings into labels. The parsing is serde_json's; what is done with its
//! answer is verified here.

use crate::error::ResponseError;
use crate::metadata::{collected, pairs_view, Metadata};
use crate::model::JsonValue;
use crate::text::{context_window, error_context};
use std::collections::BTreeMap;
use vstd::prelude::*;
use vstd::string::*;

verus! {

#[verifier::external_type_specification]
#[verifier::external_body]
pub struct ExJsonError(serde_json::Error);

#[verifier::external_type_specification]
#[verifier::external_body]
pub struct ExJsonOutside(serde_json::Value);

/// The members of the JSON object that serde_json reads from a text, by
/// ascending key, a JSON `null` as an absent value; `None` where it reads no
/// such object from the text.
pub uninterp spec fn parsed_object(text: Seq<char>) -> Option<Seq<(Seq<char>, Option<JsonValue>)>>;

/// The strings of the JSON array that serde_json reads from a text; `None`
/// where it reads no array of strings from the text.
pub uninterp spec fn parsed_labels(text: Seq<char>) -> Option<Seq<Seq<char>>>;

/// What a list of owned strings holds.
pub open spec fn labels_view(labels: Seq<String>) -> Seq<Seq<char>> {
    Seq::new(labels.len(), |i: int| labels[i]@)
}

/// Turns a `serde_json::Value` into the library's own value, variant by
/// variant; a number becomes the text that serde_json prints for it.
/// Nothing is claimed of the result.
#[verifier::external_body]
fn value_from_json(value: serde_json::Value) -> JsonValue {
    match value {
        serde_json::Value::Null => JsonValue::Null,
        serde_json::Value::Bool(b) => JsonValue::Bool(b),
        serde_json::Value::Number(n) => JsonValue::Number(n.to_string()),
        serde_json::Value::String(s) => JsonValue::Text(s),
        serde_json::Value::Array(items) => JsonValue::Array(
            items.into_iter().map(value_from_json).collect(),
        ),
        serde_json::Value::Object(members) => JsonValue::Object(
            members.into_iter().map(|(k, v)| (k, value_from_json(v))).collect(),
        ),
    }
}

/// Calls `serde_json::from_str` for a map from strings to optional values.
/// The call accepts a JSON object and nothing else, and its answer depends
/// on the text alone: the contract gives that answer the name
/// `parsed_object` and says that the call fails exactly where there is none.
#[verifier::external_body]
fn parse_object(text: &str) -> (parsed: Result<
    Vec<(String, Option<JsonValue>)>,
    serde_json::Error,
>)
    ensures
        match parsed {
            Ok(pairs) => parsed_object(text@) == Some(pairs_view(pairs@)),
            Err(_) => parsed_object(text@) is None,
        },
{
    let parsed: Result<BTreeMap<String, Option<serde_json::Value>>, serde_json::Error> =
        serde_json::from_str(text);
    parsed.map(|m| m.into_iter().map(|(k, v)| (k, v.map(value_from_json))).collect())
}

/// Calls `serde_json::from_str` for a list of strings. The call accepts a
/// JSON array whose items are all strings, and its answer depends on the
/// text alone: the contract gives that answer the name `parsed_labels` and
/// says that the call fails exactly where there is none.
#[verifier::external_body]
fn parse_labels(text: &str) -> (parsed: Result<Vec<String>, serde_json::Error>)
    ensures
        match parsed {
            Ok(labels) => parsed_labels(text@) == Some(labels_view(labels@)),
            Err(_) => parsed_labels(text@) is None,
        },
{
    serde_json::from_str(text)
}

/// `serde_json::Error::column`: the column at which the parser gave up.
/// Nothing is claimed of the number.
pub assume_specification[ serde_json::Error::column ](error: &serde_json::Error) -> (column: usize)
;

/// `error` is a decode error for `text`: its context is the window of
/// `text` around its offset.
pub open spec fn is_decode_error(text: Seq<char>, error: ResponseError) -> bool {
    match error {
        ResponseError::Decode { offset, context } => context@ == context_window(
            text,
            offset as int,
        ),
        _ => false,
    }
}

/// The decode error for a text that the parser gave up at `column`.
pub fn decode_failure(text: &str, column: usize) -> (error: ResponseError)
    ensures
        is_decode_error(text@, error),
        error matches ResponseError::Decode { offset, .. } && offset == column,
{
    ResponseError::Decode { offset: column, context: error_context(text, column) }
}

/// Decodes a span into metadata.
///
/// Succeeds exactly where serde_json reads a JSON object from the span; the
/// metadata then holds the members of that object. Otherwise the error
/// carries the column that the parser reported and the text around it.
pub fn decode_metadata(span: &str) -> (result: Result<Metadata, ResponseError>)
    ensures
        match parsed_object(span@) {
            Some(pairs) => result is Ok && result->Ok_0@ == collected(pairs, pairs.len() as int),
            None => result is Err && is_decode_error(span@, result->Err_0),
        },
{
    match parse_object(span) {
        Ok(pairs) => Ok(Metadata::from_pairs(pairs)),
        Err(error) => Err(decode_failure(span, error.column())),
    }
}

/// Decodes a span into a list of labels.
///
/// Succeeds exactly where serde_json reads a JSON array of strings from the
/// span; the labels are then its items in their order. Otherwise the error
/// carries the column that the parser reported and the text around it.
pub fn decode_labels(span: &str) -> (result: Result<Vec<String>, ResponseError>)
    ensures
        match parsed_labels(span@) {
            Some(labels) => result is Ok && labels_view(result->Ok_0@) == labels,
            None => result is Err && is_decode_error(span@, result->Err_0),
        },
{
    match parse_labels(span) {
        Ok(labels) => Ok(labels),
        Err(error) => Err(decode_failure(span, error.column())),
    }
}

} // verus!
