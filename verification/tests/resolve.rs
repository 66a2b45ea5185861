use paperless_tagger::custom_fields::{convert_field_to_custom_field, find_field_id, FieldUpdate};
use paperless_tagger::default_fields::{DefaultFieldUpdate, MATCHING_ALGORITHM};
use paperless_tagger::error::ResponseError;
use paperless_tagger::metadata::Metadata;
use paperless_tagger::model::{
    CreateField, CustomField, DefaultField, Field, JsonValue, Mode, PaperlessDefaultFieldType,
};

fn field(id: u32, name: &str) -> Field {
    Field { id, name: name.to_string(), data_type: "string".to_string() }
}

fn text(value: &str) -> Option<JsonValue> {
    Some(JsonValue::Text(value.to_string()))
}

fn entry(id: Option<u32>, name: &str) -> DefaultField {
    DefaultField { id, slug: name.to_lowercase(), name: name.to_string(), matching_algorithm: 1 }
}

fn labels(items: &[&str]) -> Vec<String> {
    items.iter().map(|s| s.to_string()).collect()
}

#[test]
fn known_keys_resolve_and_title_goes_to_the_top_level() {
    let fields = vec![field(1, "tagged"), field(2, "urgency")];
    let mut metadata = Metadata::new();
    metadata.insert("title".to_string(), text("Invoice"));
    metadata.insert("urgency".to_string(), text("high"));
    let update = FieldUpdate::start(&fields, metadata, Mode::NoCreate).unwrap();
    assert_eq!(update.next_request(), None);
    let patch = update.finish().unwrap();
    assert_eq!(
        patch.custom_fields,
        vec![
            CustomField { value: Some(JsonValue::Bool(true)), field: 1 },
            CustomField { value: text("high"), field: 2 },
        ]
    );
    assert_eq!(patch.title, Some("Invoice".to_string()));
}

#[test]
fn unknown_key_is_dropped_without_creation() {
    let fields = vec![field(1, "tagged")];
    let mut metadata = Metadata::new();
    metadata.insert("topic".to_string(), text("tax"));
    let update = FieldUpdate::start(&fields, metadata, Mode::NoCreate).unwrap();
    assert_eq!(update.next_request(), None);
    let patch = update.finish().unwrap();
    assert_eq!(patch.custom_fields, vec![CustomField { value: Some(JsonValue::Bool(true)), field: 1 }]);
    assert_eq!(patch.title, None);
}

#[test]
fn unknown_key_is_created_once_before_inclusion() {
    let fields = vec![field(1, "tagged")];
    let mut metadata = Metadata::new();
    metadata.insert("topic".to_string(), text("tax"));
    let mut update = FieldUpdate::start(&fields, metadata, Mode::Create).unwrap();
    assert_eq!(
        update.next_request(),
        Some(CreateField {
            name: "topic".to_string(),
            default_value: None,
            data_type: "Text".to_string(),
        })
    );
    // Asking again does not move the update on.
    assert_eq!(update.next_request().unwrap().name, "topic");
    update.record(Some(field(7, "topic")));
    assert_eq!(update.next_request(), None);
    let patch = update.finish().unwrap();
    assert_eq!(
        patch.custom_fields,
        vec![
            CustomField { value: Some(JsonValue::Bool(true)), field: 1 },
            CustomField { value: text("tax"), field: 7 },
        ]
    );
}

#[test]
fn failed_creation_drops_the_key_without_second_attempt() {
    let fields = vec![field(1, "tagged"), field(2, "urgency")];
    let mut metadata = Metadata::new();
    metadata.insert("topic".to_string(), text("tax"));
    metadata.insert("urgency".to_string(), text("low"));
    metadata.insert("sender".to_string(), text("hmrc"));
    let mut update = FieldUpdate::start(&fields, metadata, Mode::Create).unwrap();
    assert_eq!(update.next_request().unwrap().name, "topic");
    update.record(None);
    assert_eq!(update.next_request().unwrap().name, "sender");
    update.record(Some(field(8, "sender")));
    assert_eq!(update.next_request(), None);
    // A further outcome finds nothing waiting and changes nothing.
    update.record(Some(field(9, "late")));
    let patch = update.finish().unwrap();
    assert_eq!(
        patch.custom_fields,
        vec![
            CustomField { value: Some(JsonValue::Bool(true)), field: 1 },
            CustomField { value: text("low"), field: 2 },
            CustomField { value: text("hmrc"), field: 8 },
        ]
    );
}

#[test]
fn missing_tagged_field_is_an_error() {
    let fields = vec![field(2, "urgency")];
    let mut metadata = Metadata::new();
    metadata.insert("urgency".to_string(), text("high"));
    assert!(matches!(
        FieldUpdate::start(&fields, metadata, Mode::Create),
        Err(ResponseError::MissingTaggedField)
    ));
    assert!(matches!(
        FieldUpdate::start(&vec![], Metadata::new(), Mode::NoCreate),
        Err(ResponseError::MissingTaggedField)
    ));
}

#[test]
fn title_is_never_a_custom_field() {
    let fields = vec![field(1, "tagged"), field(5, "title")];
    let mut metadata = Metadata::new();
    metadata.insert("title".to_string(), text("Invoice"));
    let update = FieldUpdate::start(&fields, metadata, Mode::Create).unwrap();
    assert_eq!(update.next_request(), None);
    let patch = update.finish().unwrap();
    assert_eq!(patch.custom_fields, vec![CustomField { value: Some(JsonValue::Bool(true)), field: 1 }]);
    assert_eq!(patch.title, Some("Invoice".to_string()));
}

#[test]
fn title_that_is_no_string_is_left_out() {
    let fields = vec![field(1, "tagged")];
    let mut metadata = Metadata::new();
    metadata.insert("title".to_string(), Some(JsonValue::Number("7".to_string())));
    let patch = FieldUpdate::start(&fields, metadata, Mode::NoCreate).unwrap().finish().unwrap();
    assert_eq!(patch.title, None);
    let mut metadata = Metadata::new();
    metadata.insert("title".to_string(), None);
    let patch = FieldUpdate::start(&fields, metadata, Mode::NoCreate).unwrap().finish().unwrap();
    assert_eq!(patch.title, None);
}

#[test]
fn first_field_of_a_name_wins() {
    let fields = vec![field(1, "tagged"), field(2, "topic"), field(3, "topic"), field(4, "tagged")];
    assert_eq!(find_field_id(&fields, &"topic".to_string()), Some(2));
    assert_eq!(find_field_id(&fields, &"tagged".to_string()), Some(1));
    assert_eq!(find_field_id(&fields, &"Topic".to_string()), None);
    let mut metadata = Metadata::new();
    metadata.insert("topic".to_string(), None);
    let patch = FieldUpdate::start(&fields, metadata, Mode::NoCreate).unwrap().finish().unwrap();
    assert_eq!(
        patch.custom_fields,
        vec![
            CustomField { value: Some(JsonValue::Bool(true)), field: 1 },
            CustomField { value: None, field: 2 },
        ]
    );
}

#[test]
fn resolution_repeated_asks_for_the_same_fields_only() {
    let fields = vec![field(1, "tagged"), field(2, "urgency")];
    let mut requested = Vec::new();
    for _ in 0..2 {
        let mut metadata = Metadata::new();
        metadata.insert("urgency".to_string(), text("high"));
        metadata.insert("topic".to_string(), text("tax"));
        let mut update = FieldUpdate::start(&fields, metadata, Mode::Create).unwrap();
        let mut names = Vec::new();
        while let Some(request) = update.next_request() {
            names.push(request.name);
            update.record(None);
        }
        requested.push(names);
    }
    assert_eq!(requested[0], vec!["topic".to_string()]);
    assert_eq!(requested[1], vec!["topic".to_string()]);
}

#[test]
fn convert_pairs_value_and_id() {
    assert_eq!(
        convert_field_to_custom_field(text("x"), &field(12, "topic")),
        CustomField { value: text("x"), field: 12 }
    );
    assert_eq!(
        convert_field_to_custom_field(None, &field(3, "topic")),
        CustomField { value: None, field: 3 }
    );
}

#[test]
fn labels_that_fold_to_one_key_give_the_id_twice() {
    let taxonomy = vec![entry(Some(4), "Invoice")];
    let update = DefaultFieldUpdate::start(
        &taxonomy,
        labels(&["Invoice", "invoice"]),
        PaperlessDefaultFieldType::DocumentType,
        Mode::NoCreate,
    );
    assert_eq!(update.next_request(), None);
    let patch = update.finish();
    assert_eq!(patch.endpoint, PaperlessDefaultFieldType::DocumentType);
    assert_eq!(patch.ids, vec![Some(4), Some(4)]);
}

#[test]
fn unknown_label_is_skipped_without_creation() {
    let taxonomy = vec![entry(Some(4), "Invoice"), entry(Some(5), "Letter")];
    let update = DefaultFieldUpdate::start(
        &taxonomy,
        labels(&["Receipt", "LETTER ", "in voice"]),
        PaperlessDefaultFieldType::Tag,
        Mode::NoCreate,
    );
    assert_eq!(update.next_request(), None);
    assert_eq!(update.finish().ids, vec![Some(5), Some(4)]);
}

#[test]
fn unknown_label_is_created_in_the_order_of_the_labels() {
    let taxonomy = vec![entry(Some(4), "Invoice"), entry(Some(5), "Letter")];
    let mut update = DefaultFieldUpdate::start(
        &taxonomy,
        labels(&["invoice", "Receipt", "letter", "Bill", "Memo"]),
        PaperlessDefaultFieldType::Tag,
        Mode::Create,
    );
    assert_eq!(
        update.next_request(),
        Some(DefaultField {
            id: None,
            slug: "Receipt".to_string(),
            name: "Receipt".to_string(),
            matching_algorithm: 6,
        })
    );
    assert_eq!(MATCHING_ALGORITHM, 6);
    update.record(Some(entry(Some(9), "Receipt")));
    assert_eq!(update.next_request().unwrap().name, "Bill");
    update.record(None);
    assert_eq!(update.next_request().unwrap().name, "Memo");
    update.record(Some(entry(None, "Memo")));
    assert_eq!(update.next_request(), None);
    update.record(Some(entry(Some(77), "late")));
    let patch = update.finish();
    assert_eq!(patch.endpoint, PaperlessDefaultFieldType::Tag);
    assert_eq!(patch.ids, vec![Some(4), Some(9), Some(5), None]);
}

#[test]
fn first_entry_of_a_key_wins_and_absent_ids_are_kept() {
    let taxonomy = vec![entry(None, "Draft"), entry(Some(2), "draft"), entry(Some(3), "Final")];
    let update = DefaultFieldUpdate::start(
        &taxonomy,
        labels(&["DRAFT", "final"]),
        PaperlessDefaultFieldType::Correspondent,
        Mode::Create,
    );
    assert_eq!(update.next_request(), None);
    let patch = update.finish();
    assert_eq!(patch.endpoint, PaperlessDefaultFieldType::Correspondent);
    assert_eq!(patch.ids, vec![None, Some(3)]);
}

#[test]
fn no_labels_give_an_empty_replacement() {
    let taxonomy = vec![entry(Some(4), "Invoice")];
    let update =
        DefaultFieldUpdate::start(&taxonomy, vec![], PaperlessDefaultFieldType::Tag, Mode::Create);
    assert_eq!(update.next_request(), None);
    assert_eq!(update.finish().ids, Vec::<Option<u32>>::new());
}
