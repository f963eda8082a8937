use hindsight_explorer::frame::{document_row, memory_row};
use hindsight_explorer::json::{
    document_from_json, documents_from_json, memories_from_json, memory_from_json,
};
use serde_json::{Number, Value};

fn object(members: &[(&str, Value)]) -> serde_json::Map<String, Value> {
    let mut map = serde_json::Map::new();
    for (key, value) in members {
        map.insert(key.to_string(), value.clone());
    }
    map
}

fn string(text: &str) -> Value {
    Value::String(text.to_string())
}

#[test]
fn memory_reads_its_string_members() {
    let o = object(&[
        ("type", string("world")),
        ("created_at", string("2024-05-06T07:08:09Z")),
        ("text", string("The sky is blue")),
        ("id", string("ignored")),
    ]);
    let m = memory_from_json(&o);
    assert_eq!(m.kind.as_deref(), Some("world"));
    assert_eq!(m.created_at.as_deref(), Some("2024-05-06T07:08:09Z"));
    assert_eq!(m.text.as_deref(), Some("The sky is blue"));
    assert_eq!(memory_row(&m), "world        2024-05-06           The sky is blue");
}

#[test]
fn memory_members_missing_or_not_strings() {
    let o = object(&[
        ("type", Value::Number(Number::from(3))),
        ("created_at", Value::Null),
        ("Text", string("wrong case of the key")),
    ]);
    let m = memory_from_json(&o);
    assert_eq!(m.kind, None);
    assert_eq!(m.created_at, None);
    assert_eq!(m.text, None);
    assert_eq!(memory_row(&m), format!("{:<12} {:<20} {}", "unknown", "unknown", ""));
    let m = memory_from_json(&serde_json::Map::new());
    assert_eq!(m.kind, None);
    assert_eq!(m.created_at, None);
    assert_eq!(m.text, None);
}

#[test]
fn document_reads_its_string_members() {
    let o = object(&[("id", string("doc-7")), ("content_type", string("text/markdown"))]);
    let d = document_from_json(&o);
    assert_eq!(d.id.as_deref(), Some("doc-7"));
    assert_eq!(d.content_type.as_deref(), Some("text/markdown"));
    assert_eq!(document_row(&d), "doc-7 (text/markdown)");
    let o = object(&[("id", Value::Bool(true)), ("type", string("text/plain"))]);
    let d = document_from_json(&o);
    assert_eq!(d.id, None);
    assert_eq!(d.content_type, None);
    assert_eq!(document_row(&d), "unknown (unknown)");
    let o = object(&[("id", string("")), ("content_type", Value::Array(vec![string("x")]))]);
    let d = document_from_json(&o);
    assert_eq!(d.id.as_deref(), Some(""));
    assert_eq!(d.content_type, None);
}

#[test]
fn listings_keep_order_and_length() {
    let objects = vec![
        object(&[("text", string("first"))]),
        object(&[]),
        object(&[("text", string("third")), ("type", string("agent"))]),
    ];
    let memories = memories_from_json(&objects);
    assert_eq!(memories.len(), 3);
    assert_eq!(memories[0].text.as_deref(), Some("first"));
    assert_eq!(memories[1].text, None);
    assert_eq!(memories[2].text.as_deref(), Some("third"));
    assert_eq!(memories[2].kind.as_deref(), Some("agent"));
    assert!(memories_from_json(&Vec::new()).is_empty());

    let objects = vec![object(&[("id", string("a"))]), object(&[("id", string("b"))])];
    let documents = documents_from_json(&objects);
    assert_eq!(documents.len(), 2);
    assert_eq!(documents[0].id.as_deref(), Some("a"));
    assert_eq!(documents[1].id.as_deref(), Some("b"));
    assert!(documents_from_json(&Vec::new()).is_empty());
}
