//! Metadata reconciliation for a document-management service: finding the
//! bracketed span in generated text, decoding it, resolving its keys against
//! the remote taxonomies and assembling the partial update of a document.

pub mod custom_fields;
pub mod decode;
pub mod default_fields;
pub mod endpoints;
pub mod error;
pub mod extract;
pub mod metadata;
pub mod model;
pub mod patch;
pub mod pipeline;
pub mod text;
