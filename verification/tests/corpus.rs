use tantivy_worker::search::{check_text_len, parse_docs, SearchError};

fn bad_docs_message(payload: &str) -> String {
    match parse_docs(payload) {
        Err(SearchError::BadDocsJson(m)) => m,
        other => panic!("expected a BadDocsJson error, got {other:?}"),
    }
}

#[test]
fn explicit_ids_are_kept() {
    let docs =
        parse_docs(r#"[{"id":42,"text":"a happy cat"},{"id":7,"text":"a sad dog"}]"#).unwrap();
    assert_eq!(docs.len(), 2);
    assert_eq!(docs[0].id, 42);
    assert_eq!(docs[0].text, "a happy cat");
    assert_eq!(docs[1].id, 7);
    assert_eq!(docs[1].text, "a sad dog");
}

#[test]
fn object_without_id_is_refused() {
    assert_eq!(
        bad_docs_message(r#"["zero", {"text":"one"}, {"id":-5,"text":"two"}]"#),
        "doc at index 1: 'id' must be an integer"
    );
    assert_eq!(
        bad_docs_message(r#"[{"text":"a"}]"#),
        "doc at index 0: 'id' must be an integer"
    );
    let docs = parse_docs(r#"["zero", {"id":-5,"text":"two"}]"#).unwrap();
    let ids: Vec<i64> = docs.iter().map(|d| d.id).collect();
    assert_eq!(ids, vec![0, -5]);
}

#[test]
fn large_unsigned_id_wraps_into_i64() {
    let docs = parse_docs(r#"[{"id":18446744073709551615,"text":"x"}]"#).unwrap();
    assert_eq!(docs[0].id, -1);
    let docs = parse_docs(r#"[{"id":9223372036854775807,"text":"x"}]"#).unwrap();
    assert_eq!(docs[0].id, i64::MAX);
}

#[test]
fn blank_and_padded_payloads() {
    assert!(parse_docs("   \n\t").unwrap().is_empty());
    assert!(parse_docs(" null ").unwrap().is_empty());
    let docs = parse_docs("\u{a0} [\"a\"]\u{3000}\n").unwrap();
    assert_eq!(docs.len(), 1);
    assert_eq!(docs[0].text, "a");
}

#[test]
fn each_malformed_item_names_its_index() {
    assert_eq!(
        bad_docs_message(r#"[{"id":"x","text":"a"}]"#),
        "doc at index 0: 'id' must be an integer"
    );
    assert_eq!(
        bad_docs_message(r#"[{"id":1.5,"text":"a"}]"#),
        "doc at index 0: 'id' must be an integer"
    );
    assert_eq!(
        bad_docs_message(r#"["a", {"id": 2, "text": 1}]"#),
        "doc at index 1: missing string 'text'"
    );
    assert_eq!(
        bad_docs_message(r#"["a", "b", {"id": 3}]"#),
        "doc at index 2: missing string 'text'"
    );
    assert_eq!(
        bad_docs_message("[1]"),
        "doc at index 0: expected a string or an {id,text} object"
    );
    assert_eq!(
        bad_docs_message(r#"{"id":1}"#),
        "expected a JSON array of strings or {id,text} objects"
    );
    assert_eq!(
        bad_docs_message("\"just text\""),
        "expected a JSON array of strings or {id,text} objects"
    );
}

#[test]
fn the_first_malformed_item_wins() {
    assert_eq!(bad_docs_message("[true, 1]"), "doc at index 0: expected a string or an {id,text} object");
}

#[test]
fn malformed_json_carries_the_parser_message() {
    let m = bad_docs_message("not json");
    assert!(m.contains("line 1 column"), "{m}");
    let m = bad_docs_message("[1, 2");
    assert!(m.contains("EOF"), "{m}");
}

#[test]
fn oversized_text_is_too_large() {
    let big = "a".repeat(16 * 1024 * 1024 + 1);
    match check_text_len(&big) {
        Err(SearchError::TooLarge(m)) => {
            assert_eq!(m, "16777217 bytes exceeds the limit of 16777216")
        }
        other => panic!("expected TooLarge, got {other:?}"),
    }
    assert!(check_text_len(&big[1..]).is_ok());
    let payload = format!("[\"{big}\"]");
    assert!(matches!(parse_docs(&payload), Err(SearchError::TooLarge(_))));
}

#[test]
fn too_many_documents_is_too_large() {
    let mut payload = String::from("[");
    for i in 0..1_000_001 {
        if i > 0 {
            payload.push(',');
        }
        payload.push_str("\"\"");
    }
    payload.push(']');
    match parse_docs(&payload) {
        Err(SearchError::TooLarge(m)) => {
            assert_eq!(m, "1000001 documents exceeds the limit of 1000000")
        }
        other => panic!("expected TooLarge, got {:?}", other.map(|d| d.len())),
    }
}
