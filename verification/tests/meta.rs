use tantivy_worker::meta::{example_queries_tag, keywords_json, object_tags};

#[test]
fn keywords_serialize_as_a_json_array() {
    assert_eq!(keywords_json(&["bm25", "search"]), r#"["bm25","search"]"#);
    assert_eq!(keywords_json(&[]), "[]");
    assert_eq!(
        keywords_json(&["a\"b\\c\n\u{1}\u{8}\u{c}\r\t/é"]),
        r#"["a\"b\\c\n\u0001\b\f\r\t/é"]"#
    );
}

#[test]
fn example_queries_are_described() {
    let (k, v) = example_queries_tag(&[("d1", "SELECT 1"), ("d\"2", "SELECT 'x'")]);
    assert_eq!(k, "vgi.example_queries");
    assert_eq!(
        v,
        r#"[{"description":"d1","sql":"SELECT 1"},{"description":"d\"2","sql":"SELECT 'x'"}]"#
    );
    assert_eq!(example_queries_tag(&[]).1, "[]");
}

#[test]
fn object_tags_are_the_five_standard_ones() {
    let tags = object_tags("T", "L", "M", &["k"], "C");
    let expected: Vec<(String, String)> = vec![
        ("vgi.title".into(), "T".into()),
        ("vgi.doc_llm".into(), "L".into()),
        ("vgi.doc_md".into(), "M".into()),
        ("vgi.keywords".into(), r#"["k"]"#.into()),
        ("vgi.category".into(), "C".into()),
    ];
    assert_eq!(tags, expected);
}

#[test]
fn keywords_read_back_as_the_same_list() {
    let lists: [&[&str]; 3] = [&["bm25", "search"], &[], &["a\"b\\c\n\u{1}", "", "é \u{7f} ☃"]];
    for kws in lists {
        let back: Vec<String> = serde_json::from_str(&keywords_json(kws)).unwrap();
        assert_eq!(back, kws);
    }
}

#[test]
fn catalog_carries_the_worker_version() {
    let c = tantivy_worker::catalog::catalog_info("tantivy");
    assert_eq!(c.name, "tantivy");
    assert_eq!(c.implementation_version, tantivy_worker::version());
    assert_eq!(c.implementation_version, "0.1.0");
    assert_eq!(c.schema_name, "main");
    assert_eq!(c.tags, tantivy_worker::catalog::catalog_tags());
    assert_eq!(c.schema_tags, tantivy_worker::catalog::schema_tags());
    assert_eq!(c.comment, tantivy_worker::catalog::CATALOG_COMMENT);
}
