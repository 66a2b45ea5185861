//! The plain data that the reconciliation works on.

use vstd::prelude::*;
use vstd::string::*;

verus! {

/// Whether a key or label that the taxonomy lacks is created remotely or dropped.
#[derive(Clone, Copy, PartialEq, Eq, Structural, Debug)]
pub enum Mode {
    Create,
    NoCreate,
}

impl Mode {
    /// The mode for a numeric code: 1 creates, every other code does not.
    pub fn from_int(value: i32) -> (mode: Mode)
        ensures
            mode == (if value == 1 { Mode::Create } else { Mode::NoCreate }),
    {
        match value {
            1 => Mode::Create,
            _ => Mode::NoCreate,
        }
    }
}

/// The three fixed taxonomies of the service.
#[derive(Clone, Copy, PartialEq, Eq, Structural, Debug)]
pub enum PaperlessDefaultFieldType {
    Tag,
    DocumentType,
    Correspondent,
}

impl PaperlessDefaultFieldType {
    /// The plural name under which the service exposes the taxonomy.
    pub open spec fn endpoint(self) -> Seq<char> {
        match self {
            PaperlessDefaultFieldType::Tag => "tags"@,
            PaperlessDefaultFieldType::DocumentType => "document_types"@,
            PaperlessDefaultFieldType::Correspondent => "correspondents"@,
        }
    }

    /// The plural endpoint name of the taxonomy.
    pub fn to_string(self) -> (name: &'static str)
        ensures
            name@ == self.endpoint(),
    {
        match self {
            PaperlessDefaultFieldType::Tag => "tags",
            PaperlessDefaultFieldType::DocumentType => "document_types",
            PaperlessDefaultFieldType::Correspondent => "correspondents",
        }
    }
}

/// A JSON value as plain data. A number is kept as its decimal text.
#[derive(Debug, PartialEq)]
pub enum JsonValue {
    Null,
    Bool(bool),
    Number(String),
    Text(String),
    Array(Vec<JsonValue>),
    Object(Vec<(String, JsonValue)>),
}

/// The definition of a custom field in the remote taxonomy.
#[derive(Clone, Debug, PartialEq)]
pub struct Field {
    pub id: u32,
    pub name: String,
    pub data_type: String,
}

/// One entry of a document's custom-field set: the field's id and a value.
#[derive(Debug, PartialEq)]
pub struct CustomField {
    pub value: Option<JsonValue>,
    pub field: u32,
}

/// A tag, correspondent or document type. The id is absent until the
/// service has created the entry.
#[derive(Clone, Debug, PartialEq)]
pub struct DefaultField {
    pub id: Option<u32>,
    pub slug: String,
    pub name: String,
    pub matching_algorithm: u8,
}

/// The request that creates a custom field.
#[derive(Clone, Debug, PartialEq)]
pub struct CreateField {
    pub name: String,
    pub default_value: Option<String>,
    pub data_type: String,
}

/// A read-only snapshot of a document of the service.
#[derive(Debug, PartialEq)]
pub struct Document {
    pub id: u32,
    pub title: String,
    pub content: String,
    pub correspondent: Option<u32>,
    pub document_type: Option<u32>,
    pub tags: Vec<u32>,
    pub custom_fields: Vec<CustomField>,
}

/// One page of a listing of the service.
#[derive(Clone, Debug, PartialEq)]
pub struct Response<T> {
    pub count: u32,
    pub next: Option<String>,
    pub previous: Option<String>,
    pub results: Vec<T>,
}

impl<T> Response<T> {
    /// The first entity of the page, if the page holds one.
    pub fn into_first(self) -> (first: Option<T>)
        ensures
            first == (if self.results@.len() > 0 {
                Some(self.results@[0])
            } else {
                None
            }),
    {
        let mut results = self.results;
        if results.len() > 0 {
            Some(results.remove(0))
        } else {
            None
        }
    }
}

} // verus!
