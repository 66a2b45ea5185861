use paperless_tagger::error::ResponseError;
use paperless_tagger::metadata::Metadata;
use paperless_tagger::model::{Field, JsonValue, Mode, PaperlessDefaultFieldType, Response};
use paperless_tagger::patch::{build_default_field_patch, build_document_patch};
use paperless_tagger::model::CustomField;

#[test]
fn mode_from_int_defaults_to_no_create() {
    assert_eq!(Mode::from_int(1), Mode::Create);
    assert_eq!(Mode::from_int(0), Mode::NoCreate);
    assert_eq!(Mode::from_int(2), Mode::NoCreate);
    assert_eq!(Mode::from_int(-1), Mode::NoCreate);
    assert_eq!(Mode::from_int(i32::MAX), Mode::NoCreate);
}

#[test]
fn endpoint_names() {
    assert_eq!(PaperlessDefaultFieldType::Tag.to_string(), "tags");
    assert_eq!(PaperlessDefaultFieldType::DocumentType.to_string(), "document_types");
    assert_eq!(PaperlessDefaultFieldType::Correspondent.to_string(), "correspondents");
}

#[test]
fn error_messages() {
    assert_eq!(
        ResponseError::Transport("timeout".to_string()).message(),
        "Transport error: timeout"
    );
    assert_eq!(
        ResponseError::Decode { offset: 4, context: "{\"a\" 1}".to_string() }.message(),
        "Parse error near: {\"a\" 1}"
    );
    assert_eq!(ResponseError::Extraction.message(), "No JSON object found in the response!");
    assert_eq!(
        ResponseError::MissingTaggedField.message(),
        "'tagged' field not found in the provided fields."
    );
    assert_eq!(ResponseError::EmptyPayload.message(), "payload is empty, not updating fields");
    assert_eq!(
        ResponseError::FieldCreation(Box::new(ResponseError::Transport("503".to_string())))
            .message(),
        "Error creating field: Transport error: 503"
    );
    assert_eq!(
        ResponseError::FieldCreation(Box::new(ResponseError::FieldCreation(Box::new(
            ResponseError::Extraction
        ))))
        .message(),
        "Error creating field: Error creating field: No JSON object found in the response!"
    );
}

#[test]
fn error_source_is_the_wrapped_error() {
    let wrapped = ResponseError::FieldCreation(Box::new(ResponseError::Transport("x".to_string())));
    assert_eq!(wrapped.source(), Some(&ResponseError::Transport("x".to_string())));
    assert_eq!(ResponseError::Extraction.source(), None);
    assert_eq!(ResponseError::Transport("x".to_string()).source(), None);
    assert_eq!(ResponseError::EmptyPayload.source(), None);
}

#[test]
fn metadata_insert_replaces_the_value_of_a_key() {
    let mut metadata = Metadata::new();
    assert_eq!(metadata.len(), 0);
    metadata.insert("topic".to_string(), Some(JsonValue::Text("tax".to_string())));
    metadata.insert("urgency".to_string(), None);
    metadata.insert("topic".to_string(), Some(JsonValue::Text("rent".to_string())));
    assert_eq!(metadata.len(), 2);
    assert_eq!(metadata.get("topic"), Some(&Some(JsonValue::Text("rent".to_string()))));
    assert_eq!(metadata.get("urgency"), Some(&None));
    assert_eq!(metadata.get("sender"), None);
    let entries = metadata.into_entries();
    assert_eq!(entries.len(), 2);
    assert_eq!(entries[0].key, "topic");
    assert_eq!(entries[1].key, "urgency");
}

#[test]
fn metadata_from_pairs_lets_the_later_pair_win() {
    let metadata = Metadata::from_pairs(vec![
        ("a".to_string(), Some(JsonValue::Bool(false))),
        ("b".to_string(), None),
        ("a".to_string(), Some(JsonValue::Bool(true))),
    ]);
    assert_eq!(metadata.len(), 2);
    assert_eq!(metadata.get("a"), Some(&Some(JsonValue::Bool(true))));
    assert_eq!(metadata.get("b"), Some(&None));
}

#[test]
fn response_into_first() {
    let field = Field { id: 9, name: "topic".to_string(), data_type: "string".to_string() };
    let page = Response { count: 1, next: None, previous: None, results: vec![field.clone()] };
    assert_eq!(page.into_first(), Some(field));
    let empty: Response<Field> = Response { count: 0, next: None, previous: None, results: vec![] };
    assert_eq!(empty.into_first(), None);
}

#[test]
fn empty_payload_is_refused() {
    assert_eq!(build_document_patch(vec![], None), Err(ResponseError::EmptyPayload));
}

#[test]
fn document_patch_carries_what_it_is_given() {
    let patch = build_document_patch(vec![], Some("Invoice".to_string())).unwrap();
    assert!(patch.custom_fields.is_empty());
    assert_eq!(patch.title, Some("Invoice".to_string()));
    let patch = build_document_patch(
        vec![CustomField { value: Some(JsonValue::Bool(true)), field: 1 }],
        None,
    )
    .unwrap();
    assert_eq!(patch.custom_fields, vec![CustomField { value: Some(JsonValue::Bool(true)), field: 1 }]);
    assert_eq!(patch.title, None);
}

#[test]
fn default_field_patch_may_hold_no_id() {
    let patch = build_default_field_patch(PaperlessDefaultFieldType::Tag, vec![]);
    assert_eq!(patch.endpoint, PaperlessDefaultFieldType::Tag);
    assert!(patch.ids.is_empty());
    let patch = build_default_field_patch(PaperlessDefaultFieldType::Correspondent, vec![Some(3), None]);
    assert_eq!(patch.ids, vec![Some(3), None]);
}
