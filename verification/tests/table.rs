use tantivy_worker::language::{Language, SUPPORTED_LANGUAGES};
use tantivy_worker::search::{bm25_search_plan, parse_docs, SearchError, SearchPlan};
use tantivy_worker::table::{Bm25Search, SupportedLanguages};

#[test]
fn languages_come_in_one_batch() {
    let mut p = SupportedLanguages.producer();
    let rows = p.next_batch().unwrap();
    assert_eq!(rows, SUPPORTED_LANGUAGES.to_vec());
    assert!(p.next_batch().is_none());
    assert!(p.next_batch().is_none());
    assert_eq!(SupportedLanguages.row_count(), 18);
    assert_eq!(SupportedLanguages.name(), "supported_languages");
}

#[test]
fn search_call_preparation() {
    let f = Bm25Search;
    assert_eq!(f.name(), "bm25_search");
    assert_eq!(f.result_limit(), 10_000);
    assert!(f.prepare(None, Some("cat")).unwrap().is_none());
    assert!(f.prepare(Some("[]"), None).unwrap().is_none());
    let (docs, plan) = f.prepare(Some("[]"), Some("cat")).unwrap().unwrap();
    assert!(docs.is_empty());
    assert_eq!(plan, SearchPlan::NoHits);
    let (docs, plan) = f.prepare(Some(r#"["the cat sat"]"#), Some("cat")).unwrap().unwrap();
    assert_eq!(docs.len(), 1);
    assert_eq!(plan, SearchPlan::Run(Language::English));
    let (_, plan) = f.prepare(Some(r#"["the cat sat"]"#), Some("  ")).unwrap().unwrap();
    assert_eq!(plan, SearchPlan::NoHits);
    assert!(matches!(
        f.prepare(Some("not json"), Some("cat")),
        Err(SearchError::BadDocsJson(_))
    ));
}

#[test]
fn search_plan_checks_query_then_language() {
    let docs = parse_docs(r#"["a cat"]"#).unwrap();
    let big = "q".repeat(16 * 1024 * 1024 + 1);
    assert!(matches!(
        bm25_search_plan(&docs, &big, "klingon"),
        Err(SearchError::TooLarge(_))
    ));
    assert!(matches!(
        bm25_search_plan(&[], "cat", "klingon"),
        Err(SearchError::UnknownLanguage(_))
    ));
    assert_eq!(bm25_search_plan(&[], "cat", "fr").unwrap(), SearchPlan::NoHits);
    assert_eq!(
        bm25_search_plan(&docs, "cat", "fr").unwrap(),
        SearchPlan::Run(Language::French)
    );
}

#[test]
fn languages_table_is_keyed_by_its_one_column() {
    let shape = SupportedLanguages.table_shape();
    assert_eq!(shape.column, "lang");
    assert!(shape.comment.starts_with("The Snowball stemmer language ids"));
    assert_eq!(shape.primary_key, vec![vec![0]]);
    assert_eq!(shape.not_null, vec![0]);
    assert_eq!(shape.unique, vec![vec![0]]);
}
