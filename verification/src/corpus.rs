//! The `docs_json` corpus payload: a model of the parsed JSON value, and its
//! interpretation as a list of documents.

use vstd::prelude::*;

use crate::search::{
    byte_len, check_text_len, text_fits, text_too_large_message, Document, DocumentView,
    SearchError, SearchErrorView, MAX_DOCS,
};
use crate::text::{decimal, decimal_string, str_eq, trim, trim_str};

verus! {

/// What a parsed JSON number tells of itself: its value as an `i64` where it
/// is an integer in that range, and as a `u64` where it is a non-negative
/// integer in that range.
pub struct JsonNumber {
    pub as_i64: Option<i64>,
    pub as_u64: Option<u64>,
}

/// A parsed JSON value. Object members are held in the order the parser's map
/// yields them; the parser keeps one member per key.
pub enum Json {
    Null,
    Bool(bool),
    Number(JsonNumber),
    Str(String),
    Array(Vec<Json>),
    Object(Vec<(String, Json)>),
}

#[verifier::external_type_specification]
#[verifier::external_body]
pub struct ExJsonValue(serde_json::Value);

/// The outcome of `serde_json::from_str::<serde_json::Value>` on `text`: the
/// parsed value, or the parser's error message.
pub uninterp spec fn json_parse(text: Seq<char>) -> Result<Json, Seq<char>>;

/// Converts a `serde_json::Value` into [`Json`], one variant for one variant,
/// recursing into arrays and objects.
#[verifier::external_body]
fn json_of(v: serde_json::Value) -> Json {
    match v {
        serde_json::Value::Null => Json::Null,
        serde_json::Value::Bool(b) => Json::Bool(b),
        serde_json::Value::Number(n) => Json::Number(
            JsonNumber { as_i64: n.as_i64(), as_u64: n.as_u64() },
        ),
        serde_json::Value::String(s) => Json::Str(s),
        serde_json::Value::Array(a) => Json::Array(a.into_iter().map(json_of).collect()),
        serde_json::Value::Object(m) => Json::Object(
            m.into_iter().map(|(k, x)| (k, json_of(x))).collect(),
        ),
    }
}

/// Parses `text` with `serde_json::from_str` into a `serde_json::Value` and
/// converts it. The contract names the outcome `json_parse`; on error it
/// carries the parser error's `Display` text.
#[verifier::external_body]
fn parse_json(text: &str) -> (r: Result<Json, String>)
    ensures
        match r {
            Ok(j) => json_parse(text@) == Ok::<Json, Seq<char>>(j),
            Err(e) => json_parse(text@) == Err::<Json, Seq<char>>(e@),
        },
{
    match serde_json::from_str::<serde_json::Value>(text) {
        Ok(v) => Ok(json_of(v)),
        Err(e) => Err(e.to_string()),
    }
}

/// The value of the first member of `members` whose key is `key`.
pub open spec fn member(members: Seq<(String, Json)>, key: Seq<char>) -> Option<Json>
    decreases members.len(),
{
    if members.len() == 0 {
        None
    } else if members[0].0@ == key {
        Some(members[0].1)
    } else {
        member(members.drop_first(), key)
    }
}

/// The message of an error about the document at index `idx`.
pub open spec fn doc_message(idx: nat, what: Seq<char>) -> Seq<char> {
    "doc at index "@ + decimal(idx) + what
}

/// The message of the error for a payload that is neither an array nor null.
pub open spec fn not_an_array_message() -> Seq<char> {
    "expected a JSON array of strings or {id,text} objects"@
}

/// The message of the error for a corpus of `n` documents over the bound.
pub open spec fn too_many_docs_message(n: nat) -> Seq<char> {
    decimal(n) + " documents exceeds the limit of "@ + decimal(MAX_DOCS as nat)
}

/// The id of the object document at index `idx`: its `id` member, which must
/// be an integer; an object without one describes no document.
pub open spec fn object_doc_id(members: Seq<(String, Json)>, idx: nat) -> Result<i64, SearchErrorView> {
    match member(members, "id"@) {
        Some(Json::Number(n)) => if n.as_i64 is Some {
            Ok(n.as_i64->0)
        } else if n.as_u64 is Some {
            Ok(n.as_u64->0 as i64)
        } else {
            Err(SearchErrorView::BadDocsJson(doc_message(idx, ": 'id' must be an integer"@)))
        },
        _ => Err(SearchErrorView::BadDocsJson(doc_message(idx, ": 'id' must be an integer"@))),
    }
}

/// A document body, checked against the size bound.
pub open spec fn bounded_doc(id: i64, text: Seq<char>) -> Result<DocumentView, SearchErrorView> {
    if text_fits(text) {
        Ok(DocumentView { id, text })
    } else {
        Err(SearchErrorView::TooLarge(text_too_large_message(byte_len(text))))
    }
}

/// The document that the array item `item` at index `idx` describes: a string
/// is a body whose id is the index; an object carries an explicit integer
/// `id` and a string `text`.
pub open spec fn item_doc(item: Json, idx: nat) -> Result<DocumentView, SearchErrorView> {
    match item {
        Json::Str(s) => bounded_doc(idx as i64, s@),
        Json::Object(members) => match object_doc_id(members@, idx) {
            Err(e) => Err(e),
            Ok(id) => match member(members@, "text"@) {
                Some(Json::Str(s)) => bounded_doc(id, s@),
                _ => Err(
                    SearchErrorView::BadDocsJson(doc_message(idx, ": missing string 'text'"@)),
                ),
            },
        },
        _ => Err(
            SearchErrorView::BadDocsJson(
                doc_message(idx, ": expected a string or an {id,text} object"@),
            ),
        ),
    }
}

/// The documents of the array items `items`, in order; the first item that
/// describes no document gives the error.
pub open spec fn items_docs(items: Seq<Json>) -> Result<Seq<DocumentView>, SearchErrorView>
    decreases items.len(),
{
    if items.len() == 0 {
        Ok(Seq::empty())
    } else {
        match items_docs(items.drop_last()) {
            Err(e) => Err(e),
            Ok(docs) => match item_doc(items.last(), (items.len() - 1) as nat) {
                Err(e) => Err(e),
                Ok(d) => Ok(docs.push(d)),
            },
        }
    }
}

/// The corpus a parsed payload describes: `null` is the empty corpus; an
/// array of at most [`MAX_DOCS`] items gives one document per item.
pub open spec fn json_docs(j: Json) -> Result<Seq<DocumentView>, SearchErrorView> {
    match j {
        Json::Null => Ok(Seq::empty()),
        Json::Array(items) => if items@.len() > MAX_DOCS {
            Err(SearchErrorView::TooLarge(too_many_docs_message(items@.len())))
        } else {
            items_docs(items@)
        },
        _ => Err(SearchErrorView::BadDocsJson(not_an_array_message())),
    }
}

/// The corpus a `docs_json` payload describes: a blank payload is the empty
/// corpus; otherwise the trimmed payload is parsed as JSON.
pub open spec fn payload_docs(docs_json: Seq<char>) -> Result<Seq<DocumentView>, SearchErrorView> {
    if trim(docs_json).len() == 0 {
        Ok(Seq::empty())
    } else {
        match json_parse(trim(docs_json)) {
            Err(m) => Err(SearchErrorView::BadDocsJson(m)),
            Ok(j) => json_docs(j),
        }
    }
}

/// The mathematical value of a corpus result.
pub open spec fn docs_result_view(r: Result<Vec<Document>, SearchError>) -> Result<
    Seq<DocumentView>,
    SearchErrorView,
> {
    match r {
        Ok(ds) => Ok(ds@.map_values(|d: Document| d@)),
        Err(e) => Err(e@),
    }
}

/// The position of the first member of `members` whose key is `key`.
fn find_member(members: &Vec<(String, Json)>, key: &str) -> (r: Option<usize>)
    ensures
        match r {
            Some(i) => i < members@.len() && member(members@, key@) == Some(members@[i as int].1),
            None => member(members@, key@) is None,
        },
{
    let n = members.len();
    let mut i: usize = 0;
    proof {
        assert(members@.skip(0) =~= members@);
    }
    while i < n
        invariant
            n == members@.len(),
            i <= n,
            member(members@, key@) == member(members@.skip(i as int), key@),
        decreases n - i,
    {
        let ghost rest = members@.skip(i as int);
        proof {
            assert(rest.drop_first() =~= members@.skip(i + 1));
            assert(rest[0] == members@[i as int]);
        }
        if str_eq(members[i].0.as_str(), key) {
            return Some(i);
        }
        i = i + 1;
    }
    None
}

/// The error about the document at index `idx`.
fn doc_error(idx: usize, what: &str) -> (e: SearchError)
    ensures
        e@ == SearchErrorView::BadDocsJson(doc_message(idx as nat, what@)),
{
    let mut m = "doc at index ".to_owned();
    let d = decimal_string(idx as u64);
    m.append(d.as_str());
    m.append(what);
    SearchError::BadDocsJson(m)
}

/// The id of an object document at index `idx`.
fn object_id(members: &Vec<(String, Json)>, idx: usize) -> (r: Result<i64, SearchError>)
    requires
        idx <= MAX_DOCS,
    ensures
        match r {
            Ok(id) => object_doc_id(members@, idx as nat) == Ok::<i64, SearchErrorView>(id),
            Err(e) => object_doc_id(members@, idx as nat) == Err::<i64, SearchErrorView>(e@),
        },
{
    match find_member(members, "id") {
        None => Err(doc_error(idx, ": 'id' must be an integer")),
        Some(k) => match &members[k].1 {
            Json::Number(n) => match (n.as_i64, n.as_u64) {
                (Some(v), _) => Ok(v),
                (None, Some(u)) => Ok(u as i64),
                (None, None) => Err(doc_error(idx, ": 'id' must be an integer")),
            },
            _ => Err(doc_error(idx, ": 'id' must be an integer")),
        },
    }
}

/// A document with body `text`, checked against the size bound.
fn bounded(id: i64, text: String) -> (r: Result<Document, SearchError>)
    ensures
        match r {
            Ok(d) => bounded_doc(id, text@) == Ok::<DocumentView, SearchErrorView>(d@),
            Err(e) => bounded_doc(id, text@) == Err::<DocumentView, SearchErrorView>(e@),
        },
{
    check_text_len(text.as_str())?;
    Ok(Document { id, text })
}

/// The document the array item `item` at index `idx` describes.
fn item_document(item: &Json, idx: usize) -> (r: Result<Document, SearchError>)
    requires
        idx <= MAX_DOCS,
    ensures
        match r {
            Ok(d) => item_doc(*item, idx as nat) == Ok::<DocumentView, SearchErrorView>(d@),
            Err(e) => item_doc(*item, idx as nat) == Err::<DocumentView, SearchErrorView>(e@),
        },
{
    match item {
        Json::Str(s) => bounded(idx as i64, s.clone()),
        Json::Object(members) => {
            let id = object_id(members, idx)?;
            match find_member(members, "text") {
                Some(k) => match &members[k].1 {
                    Json::Str(s) => bounded(id, s.clone()),
                    _ => Err(doc_error(idx, ": missing string 'text'")),
                },
                None => Err(doc_error(idx, ": missing string 'text'")),
            }
        },
        _ => Err(doc_error(idx, ": expected a string or an {id,text} object")),
    }
}

proof fn lemma_items_docs_error_persists(items: Seq<Json>, k: int)
    requires
        0 <= k <= items.len(),
        items_docs(items.take(k)) is Err,
    ensures
        items_docs(items) == items_docs(items.take(k)),
    decreases items.len() - k,
{
    if k == items.len() {
        assert(items.take(k) =~= items);
    } else {
        assert(items.take(k + 1).drop_last() =~= items.take(k));
        lemma_items_docs_error_persists(items, k + 1);
    }
}

/// The corpus that the parsed payload `j` describes: `null` is the empty
/// corpus; an array of strings gives documents whose ids are their 0-based
/// indices; an array of `{id,text}` objects, each with an explicit integer
/// `id`, gives documents with those ids. Anything else is an error.
pub fn docs_from_json(j: &Json) -> (r: Result<Vec<Document>, SearchError>)
    ensures
        docs_result_view(r) == json_docs(*j),
{
    match j {
        Json::Null => {
            let docs: Vec<Document> = Vec::new();
            assert(docs@.map_values(|d: Document| d@) =~= Seq::<DocumentView>::empty());
            Ok(docs)
        },
        Json::Array(items) => {
            let n = items.len();
            if n > MAX_DOCS {
                let mut m = decimal_string(n as u64);
                m.append(" documents exceeds the limit of ");
                let limit = decimal_string(MAX_DOCS as u64);
                m.append(limit.as_str());
                return Err(SearchError::TooLarge(m));
            }
            let mut docs: Vec<Document> = Vec::new();
            let mut i: usize = 0;
            proof {
                assert(items@.take(0) =~= Seq::<Json>::empty());
                assert(docs@.map_values(|d: Document| d@) =~= Seq::<DocumentView>::empty());
            }
            while i < n
                invariant
                    n == items@.len(),
                    n <= MAX_DOCS,
                    i <= n,
                    json_docs(*j) == items_docs(items@),
                    items_docs(items@.take(i as int)) == Ok::<Seq<DocumentView>, SearchErrorView>(
                        docs@.map_values(|d: Document| d@),
                    ),
                decreases n - i,
            {
                let ghost t = items@.take(i + 1);
                let ghost before = docs@.map_values(|d: Document| d@);
                proof {
                    assert(t.drop_last() =~= items@.take(i as int));
                    assert(t.last() == items@[i as int]);
                    assert((t.len() - 1) as nat == i as nat);
                }
                match item_document(&items[i], i) {
                    Err(e) => {
                        proof {
                            assert(items_docs(t) == Err::<Seq<DocumentView>, SearchErrorView>(e@));
                            lemma_items_docs_error_persists(items@, i + 1);
                            assert(items_docs(items@) == Err::<Seq<DocumentView>, SearchErrorView>(
                                e@,
                            ));
                        }
                        return Err(e);
                    },
                    Ok(d) => {
                        docs.push(d);
                        proof {
                            assert(docs@.map_values(|d: Document| d@) =~= before.push(d@));
                            assert(items_docs(t) == Ok::<Seq<DocumentView>, SearchErrorView>(
                                before.push(d@),
                            ));
                        }
                    },
                }
                i = i + 1;
            }
            proof {
                assert(items@.take(n as int) =~= items@);
            }
            Ok(docs)
        },
        _ => Err(SearchError::BadDocsJson("expected a JSON array of strings or {id,text} objects".to_owned())),
    }
}

/// Parses the `docs_json` payload into a document list. It is either a JSON
/// array of strings, where a document's id is its 0-based index, or a JSON
/// array of `{"id": <int>, "text": <string>}` objects. A blank payload, an
/// empty array and `null` give an empty corpus; anything else is a
/// `BadDocsJson` error, and a corpus or body over its bound is `TooLarge`.
pub fn parse_docs(docs_json: &str) -> (r: Result<Vec<Document>, SearchError>)
    ensures
        docs_result_view(r) == payload_docs(docs_json@),
{
    let trimmed = trim_str(docs_json);
    if trimmed.is_empty() {
        let docs: Vec<Document> = Vec::new();
        assert(docs@.map_values(|d: Document| d@) =~= Seq::<DocumentView>::empty());
        return Ok(docs);
    }
    match parse_json(trimmed) {
        Err(e) => Err(SearchError::BadDocsJson(e)),
        Ok(j) => docs_from_json(&j),
    }
}

/// A corpus given as an array of strings, each within bound, has one
/// document per string, whose id is the string's 0-based index.
pub proof fn lemma_string_array_ids(items: Seq<Json>)
    requires
        items.len() <= MAX_DOCS,
        forall|i: int| 0 <= i < items.len() ==> (#[trigger] items[i] matches Json::Str(s) && text_fits(s@)),
    ensures
        items_docs(items) is Ok,
        items_docs(items)->Ok_0.len() == items.len(),
        forall|i: int|
            0 <= i < items.len() ==> (#[trigger] items_docs(items)->Ok_0[i]).id == i && (
            items[i] matches Json::Str(s) && items_docs(items)->Ok_0[i].text == s@),
    decreases items.len(),
{
    if items.len() > 0 {
        let p = items.drop_last();
        assert forall|i: int| 0 <= i < p.len() implies (#[trigger] p[i] matches Json::Str(s) && text_fits(s@)) by {
            assert(p[i] == items[i]);
        }
        lemma_string_array_ids(p);
        assert(items.last() == items[items.len() - 1]);
        assert forall|i: int| 0 <= i < items.len() implies (#[trigger] items_docs(items)->Ok_0[i]).id == i && (
            items[i] matches Json::Str(s) && items_docs(items)->Ok_0[i].text == s@) by {
            if i < items.len() - 1 {
                assert(p[i] == items[i]);
                assert(items_docs(items)->Ok_0[i] == items_docs(p)->Ok_0[i]);
            }
        }
    }
}

/// An `{id, text}` object with an integer `id` describes the document with
/// that id and that text, wherever it stands in the array.
pub proof fn lemma_explicit_id_is_kept(members: Vec<(String, Json)>, idx: nat, id: i64, text: String)
    requires
        member(members@, "id"@) matches Some(Json::Number(n)) && n.as_i64 == Some(id),
        member(members@, "text"@) == Some(Json::Str(text)),
        text_fits(text@),
    ensures
        item_doc(Json::Object(members), idx) == Ok::<DocumentView, SearchErrorView>(
            DocumentView { id, text: text@ },
        ),
{
}

/// A blank payload, and the JSON `null`, are the empty corpus.
pub proof fn lemma_empty_payloads(docs_json: Seq<char>)
    ensures
        trim(docs_json).len() == 0 ==> payload_docs(docs_json) == Ok::<Seq<DocumentView>, SearchErrorView>(
            Seq::empty(),
        ),
        json_docs(Json::Null) == Ok::<Seq<DocumentView>, SearchErrorView>(Seq::empty()),
{
}

} // verus!
