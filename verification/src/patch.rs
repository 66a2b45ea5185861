//! Assembling the partial update of a document.

use crate::error::ResponseError;
use crate::model::{CustomField, PaperlessDefaultFieldType};
use vstd::prelude::*;
use vstd::string::*;

verus! {

/// The characters of an optional text.
pub open spec fn title_text(title: Option<String>) -> Option<Seq<char>> {
    match title {
        Some(text) => Some(text@),
        None => None,
    }
}

/// The partial update of a document's custom fields and, where one was
/// inferred, of its title.
#[derive(Debug, PartialEq)]
pub struct DocumentPatch {
    pub custom_fields: Vec<CustomField>,
    pub title: Option<String>,
}

/// The partial update of one taxonomy of a document: the ids replace the
/// document's associations of that kind.
#[derive(Debug, PartialEq)]
pub struct DefaultFieldPatch {
    pub endpoint: PaperlessDefaultFieldType,
    pub ids: Vec<Option<u32>>,
}

/// Composes the update of a document's custom fields.
///
/// Fails with `EmptyPayload` exactly when there is neither a custom-field
/// entry nor a title; otherwise the update carries both as given.
pub fn build_document_patch(custom_fields: Vec<CustomField>, title: Option<String>) -> (result:
    Result<DocumentPatch, ResponseError>)
    ensures
        custom_fields@.len() == 0 && title is None ==> result == Err::<
            DocumentPatch,
            ResponseError,
        >(ResponseError::EmptyPayload),
        custom_fields@.len() > 0 || title is Some ==> result == Ok::<DocumentPatch, ResponseError>(
            DocumentPatch { custom_fields, title },
        ),
{
    if custom_fields.len() == 0 && title.is_none() {
        Err(ResponseError::EmptyPayload)
    } else {
        Ok(DocumentPatch { custom_fields, title })
    }
}

/// Composes the update of one taxonomy of a document: the one key is the
/// taxonomy's plural name, its value the list of ids, which may be empty.
pub fn build_default_field_patch(endpoint: PaperlessDefaultFieldType, ids: Vec<Option<u32>>) -> (patch:
    DefaultFieldPatch)
    ensures
        patch == (DefaultFieldPatch { endpoint, ids }),
{
    DefaultFieldPatch { endpoint, ids }
}

} // verus!
