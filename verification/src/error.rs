//! The one error type of the library, discriminated by kind.

use vstd::prelude::*;
use vstd::string::*;

verus! {

/// What can go wrong while one document is reconciled.
#[derive(Debug, PartialEq)]
pub enum ResponseError {
    /// The connection failed or the service answered with a non-success status.
    Transport(String),
    /// The text is not well-formed JSON of the expected shape. `offset` is the
    /// position that the parser reported, `context` the characters around it.
    Decode { offset: usize, context: String },
    /// The text holds no balanced bracketed span.
    Extraction,
    /// The remote taxonomy lacks the reserved marker field.
    MissingTaggedField,
    /// The update would carry no entry at all.
    EmptyPayload,
    /// A taxonomy entry could not be created; the cause is kept.
    FieldCreation(Box<ResponseError>),
}

impl ResponseError {
    /// The text that describes each kind of error; an error that wraps
    /// another one ends with the text of that one.
    pub open spec fn spec_message(self) -> Seq<char>
        decreases self,
    {
        match self {
            ResponseError::Transport(detail) => "Transport error: "@ + detail@,
            ResponseError::Decode { offset, context } => "Parse error near: "@ + context@,
            ResponseError::Extraction => "No JSON object found in the response!"@,
            ResponseError::MissingTaggedField => "'tagged' field not found in the provided fields."@,
            ResponseError::EmptyPayload => "payload is empty, not updating fields"@,
            ResponseError::FieldCreation(cause) => "Error creating field: "@
                + cause.spec_message(),
        }
    }

    /// A description of the error for a log line.
    pub fn message(&self) -> (text: String)
        ensures
            text@ == self.spec_message(),
        decreases self,
    {
        match self {
            ResponseError::Transport(detail) => {
                String::from_str("Transport error: ").concat(detail.as_str())
            },
            ResponseError::Decode { offset, context } => {
                String::from_str("Parse error near: ").concat(context.as_str())
            },
            ResponseError::Extraction => String::from_str("No JSON object found in the response!"),
            ResponseError::MissingTaggedField => String::from_str(
                "'tagged' field not found in the provided fields.",
            ),
            ResponseError::EmptyPayload => String::from_str("payload is empty, not updating fields"),
            ResponseError::FieldCreation(cause) => {
                let inner = cause.message();
                String::from_str("Error creating field: ").concat(inner.as_str())
            },
        }
    }

    /// The error that this one wraps, if it wraps one.
    pub fn source(&self) -> (cause: Option<&ResponseError>)
        ensures
            cause == match *self {
                ResponseError::FieldCreation(inner) => Some(&*inner),
                _ => None,
            },
    {
        match self {
            ResponseError::FieldCreation(inner) => Some(&**inner),
            _ => None,
        }
    }
}

} // verus!
