use paperless_tagger::error::ResponseError;
use paperless_tagger::extract::extract_json_object;

#[test]
fn test_extract_json_object() {
    let json_str = "Some text before JSON object {\"key\": \"value\"} Some text after";
    assert_eq!(
        extract_json_object(json_str).unwrap(),
        "{\"key\": \"value\"}"
    );

    let json_array_str = "Some text before JSON array [1,2,3] Some text after";
    assert_eq!(
        extract_json_object(json_array_str).unwrap(),
        "[1,2,3]"
    );

    let empty_json_str = "No JSON object or array here";
    assert!(extract_json_object(empty_json_str).is_err());
}

#[test]
fn extraction_fails_with_extraction_error_without_brackets() {
    assert_eq!(extract_json_object("plain words"), Err(ResponseError::Extraction));
    assert_eq!(extract_json_object(""), Err(ResponseError::Extraction));
}

#[test]
fn extraction_fails_when_never_balanced() {
    assert_eq!(extract_json_object("start {\"a\": [1, 2}"), Err(ResponseError::Extraction));
    assert_eq!(extract_json_object("{{}"), Err(ResponseError::Extraction));
    assert_eq!(extract_json_object("only closing } here"), Err(ResponseError::Extraction));
}

#[test]
fn extraction_stops_at_first_return_to_zero() {
    assert_eq!(extract_json_object("a {\"x\": 1} b {\"y\": 2}").unwrap(), "{\"x\": 1}");
    assert_eq!(extract_json_object("{}").unwrap(), "{}");
}

#[test]
fn extraction_keeps_nested_brackets() {
    assert_eq!(
        extract_json_object("x {\"a\": {\"b\": [1, {\"c\": 2}]}} y").unwrap(),
        "{\"a\": {\"b\": [1, {\"c\": 2}]}}"
    );
}

#[test]
fn extraction_uses_one_counter_for_both_kinds() {
    // The kinds of bracket are not matched against each other.
    assert_eq!(
        extract_json_object("see {\"a\": [1,2} rest] end").unwrap(),
        "{\"a\": [1,2} rest]"
    );
    assert_eq!(extract_json_object("{1]").unwrap(), "{1]");
    assert_eq!(extract_json_object("[1}").unwrap(), "[1}");
}

#[test]
fn extraction_starts_at_first_opening_bracket() {
    // The leading closing bracket lowers the counter to -1, so the first
    // opening bracket brings it to 0 and the second to 1.
    assert_eq!(extract_json_object("} {{a}}").unwrap(), "{{a}");
    assert_eq!(extract_json_object("} {a}"), Err(ResponseError::Extraction));
}

#[test]
fn extraction_counts_characters_not_bytes() {
    assert_eq!(
        extract_json_object("Größe: äöü {\"straße\": \"Köln\"} – Ende").unwrap(),
        "{\"straße\": \"Köln\"}"
    );
}
