//! Reading the records that the service sends as JSON objects.

use crate::data::{Document, MemoryRecord};
use vstd::prelude::*;

verus! {

/// `serde_json::Map`, a JSON object. Nothing of its inside is known here.
#[verifier::external_type_specification]
#[verifier::external_body]
#[verifier::reject_recursive_types(K)]
#[verifier::reject_recursive_types(V)]
pub struct ExJsonObject<K, V>(serde_json::Map<K, V>);

/// `serde_json::Value`, a JSON value. Nothing of its inside is known here.
#[verifier::external_type_specification]
#[verifier::external_body]
pub struct ExJsonValue(serde_json::Value);

/// The members of a JSON object whose value is a string, each key with the
/// text of its value.
pub uninterp spec fn json_texts(object: serde_json::Map<String, serde_json::Value>) -> Map<
    Seq<char>,
    Seq<char>,
>;

/// `serde_json::Map::get` followed by `serde_json::Value::as_str`: the text of
/// the member `key` if the object has that member and its value is a string,
/// and `None` if the member is missing or holds anything else.
#[verifier::external_body]
fn text_member(object: &serde_json::Map<String, serde_json::Value>, key: &str) -> (text: Option<String>)
    ensures
        match text {
            Some(s) => json_texts(*object).contains_key(key@) && json_texts(*object)[key@] == s@,
            None => !json_texts(*object).contains_key(key@),
        },
{
    object.get(key).and_then(|value| value.as_str()).map(|s| s.to_owned())
}

/// The text under `key`, if there is one.
pub open spec fn text_at(texts: Map<Seq<char>, Seq<char>>, key: Seq<char>) -> Option<Seq<char>> {
    if texts.contains_key(key) {
        Some(texts[key])
    } else {
        None
    }
}

/// The characters of a text that may be missing.
pub open spec fn chars_of(text: Option<String>) -> Option<Seq<char>> {
    match text {
        Some(s) => Some(s@),
        None => None,
    }
}

/// The memory read off a JSON object: the string members `type`,
/// `created_at` and `text` of the object, each missing where the object has
/// no such member or holds something other than a string there.
pub open spec fn is_memory_of(
    memory: MemoryRecord,
    object: serde_json::Map<String, serde_json::Value>,
) -> bool {
    &&& chars_of(memory.kind) == text_at(json_texts(object), "type"@)
    &&& chars_of(memory.created_at) == text_at(json_texts(object), "created_at"@)
    &&& chars_of(memory.text) == text_at(json_texts(object), "text"@)
}

/// The document read off a JSON object: the string members `id` and
/// `content_type` of the object, each missing where the object has no such
/// member or holds something other than a string there.
pub open spec fn is_document_of(
    document: Document,
    object: serde_json::Map<String, serde_json::Value>,
) -> bool {
    &&& chars_of(document.id) == text_at(json_texts(object), "id"@)
    &&& chars_of(document.content_type) == text_at(json_texts(object), "content_type"@)
}

/// A memory as the explorer shows it, read off the object the service sent.
pub fn memory_from_json(object: &serde_json::Map<String, serde_json::Value>) -> (memory: MemoryRecord)
    ensures
        is_memory_of(memory, *object),
{
    MemoryRecord {
        kind: text_member(object, "type"),
        created_at: text_member(object, "created_at"),
        text: text_member(object, "text"),
    }
}

/// A document as the explorer shows it, read off the object the service sent.
pub fn document_from_json(object: &serde_json::Map<String, serde_json::Value>) -> (document: Document)
    ensures
        is_document_of(document, *object),
{
    Document { id: text_member(object, "id"), content_type: text_member(object, "content_type") }
}

/// The memories of a listing, one for each object and in the same order.
pub fn memories_from_json(objects: &Vec<serde_json::Map<String, serde_json::Value>>) -> (memories: Vec<
    MemoryRecord,
>)
    ensures
        memories@.len() == objects@.len(),
        forall|i: int| 0 <= i < objects@.len() ==> is_memory_of(#[trigger] memories@[i], objects@[i]),
{
    let mut memories: Vec<MemoryRecord> = Vec::new();
    let mut i: usize = 0;
    while i < objects.len()
        invariant
            i <= objects@.len(),
            memories@.len() == i,
            forall|j: int| 0 <= j < i ==> is_memory_of(#[trigger] memories@[j], objects@[j]),
        decreases objects@.len() - i,
    {
        memories.push(memory_from_json(&objects[i]));
        i += 1;
    }
    memories
}

/// The documents of a listing, one for each object and in the same order.
pub fn documents_from_json(objects: &Vec<serde_json::Map<String, serde_json::Value>>) -> (documents:
    Vec<Document>)
    ensures
        documents@.len() == objects@.len(),
        forall|i: int|
            0 <= i < objects@.len() ==> is_document_of(#[trigger] documents@[i], objects@[i]),
{
    let mut documents: Vec<Document> = Vec::new();
    let mut i: usize = 0;
    while i < objects.len()
        invariant
            i <= objects@.len(),
            documents@.len() == i,
            forall|j: int| 0 <= j < i ==> is_document_of(#[trigger] documents@[j], objects@[j]),
        decreases objects@.len() - i,
    {
        documents.push(document_from_json(&objects[i]));
        i += 1;
    }
    documents
}

} // verus!
