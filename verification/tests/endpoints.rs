use paperless_tagger::endpoints::{
    custom_fields_url, default_fields_url, document_url, documents_url,
};
use paperless_tagger::model::PaperlessDefaultFieldType;
use paperless_tagger::text::trim_leading;

#[test]
fn documents_url_carries_the_filter() {
    assert_eq!(
        documents_url("http://localhost:8000", "NOT tagged=true"),
        "http://localhost:8000/api/documents/?query=NOT tagged=true"
    );
    assert_eq!(documents_url("", ""), "/api/documents/?query=");
}

#[test]
fn document_url_writes_the_id_in_decimal() {
    assert_eq!(document_url("http://p", 0), "http://p/api/documents/0/");
    assert_eq!(document_url("http://p", 7), "http://p/api/documents/7/");
    assert_eq!(document_url("http://p", 10), "http://p/api/documents/10/");
    assert_eq!(document_url("http://p", 1203), "http://p/api/documents/1203/");
    assert_eq!(document_url("http://p", 9_876_543), "http://p/api/documents/9876543/");
    assert_eq!(document_url("http://p", u32::MAX), "http://p/api/documents/4294967295/");
}

#[test]
fn taxonomy_urls() {
    assert_eq!(custom_fields_url("http://p"), "http://p/api/custom_fields/");
    assert_eq!(
        default_fields_url("http://p", PaperlessDefaultFieldType::Tag),
        "http://p/api/tags/"
    );
    assert_eq!(
        default_fields_url("http://p", PaperlessDefaultFieldType::DocumentType),
        "http://p/api/document_types/"
    );
    assert_eq!(
        default_fields_url("http://p", PaperlessDefaultFieldType::Correspondent),
        "http://p/api/correspondents/"
    );
}

#[test]
fn trim_leading_removes_every_leading_copy() {
    assert_eq!(trim_leading("Field: {\"a\": 1}", "Field: "), "{\"a\": 1}");
    assert_eq!(trim_leading("Field: Field: {}", "Field: "), "{}");
    assert_eq!(trim_leading("{\"a\": \"Field: \"}", "Field: "), "{\"a\": \"Field: \"}");
    assert_eq!(trim_leading("ababab", "ab"), "");
    assert_eq!(trim_leading("ababa", "ab"), "a");
    assert_eq!(trim_leading("abc", ""), "abc");
    assert_eq!(trim_leading("", "ab"), "");
    assert_eq!(trim_leading("a", "ab"), "a");
    assert_eq!(trim_leading("ääb", "ä"), "b");
}

#[test]
fn trim_leading_agrees_with_std() {
    for (text, prefix) in [
        ("Document content: {\"count\": 0}", "Document content: "),
        ("xxxy", "x"),
        ("xyxyx", "xy"),
        ("none", "zz"),
    ] {
        assert_eq!(trim_leading(text, prefix), text.trim_start_matches(prefix));
    }
}
