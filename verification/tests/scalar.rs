use tantivy_worker::scalar::{Bm25Score, Stem, TantivyVersion, Tokenize, TokenizeLang};
use tantivy_worker::search::SearchError;

#[test]
fn tokenize_binds_list_and_splits() {
    let out = Tokenize
        .process(&[Some("Running quickly, CATS!"), None])
        .unwrap();
    let row = out[0].as_ref().unwrap();
    assert_eq!(row.len(), 3);
    assert_eq!(row[0], "running");
    assert_eq!(row[2], "cats");
    assert!(out[1].is_none(), "NULL text → NULL list");
}

#[test]
fn tokenize_lang_stems() {
    let out = TokenizeLang
        .process(&[Some("Running quickly")], &[Some("english")])
        .unwrap();
    assert_eq!(out[0].as_ref().unwrap()[0], "run");
}

#[test]
fn stem_binds_varchar_and_stems() {
    let out = Stem.process(&[Some("running")], &[Some("english")]).unwrap();
    assert_eq!(out[0].as_deref(), Some("run"));
}

#[test]
fn unknown_language_errors() {
    let err = Stem.process(&[Some("x")], &[Some("klingon")]);
    assert!(err.is_err(), "unknown language must be a clear error");
}

#[test]
fn null_inputs_yield_null() {
    assert!(Bm25Score.row_inputs(None, Some("cat")).is_none());
    assert!(Bm25Score.row_inputs(Some("x"), None).is_none());
}

#[test]
fn returns_tantivy_version() {
    let out = TantivyVersion.process(1);
    assert!(out[0].contains("tantivy"));
}

#[test]
fn scalar_names() {
    assert_eq!(Tokenize.name(), "tokenize");
    assert_eq!(TokenizeLang.name(), "tokenize");
    assert_eq!(Stem.name(), "stem");
    assert_eq!(Bm25Score.name(), "bm25_score");
    assert_eq!(Bm25Score.language(), "english");
    assert_eq!(TantivyVersion.name(), "tantivy_version");
}

#[test]
fn null_rows_stay_null_and_keep_their_place() {
    let out = TokenizeLang
        .process(&[None, Some("Dogs bark"), Some("x")], &[Some("english"), Some("en"), None])
        .unwrap();
    assert_eq!(out.len(), 3);
    assert!(out[0].is_none());
    assert_eq!(out[1].as_ref().unwrap(), &vec!["dog".to_string(), "bark".to_string()]);
    assert!(out[2].is_none());
    let stems = Stem.process(&[None, Some("cats")], &[Some("english"), Some("english")]).unwrap();
    assert_eq!(stems, vec![None, Some("cat".to_string())]);
}

#[test]
fn first_failing_row_fails_the_batch() {
    let big = "a".repeat(16 * 1024 * 1024 + 1);
    let r = Tokenize.process(&[Some("ok"), Some(big.as_str())]);
    assert!(matches!(r, Err(SearchError::TooLarge(_))));
    let r = TokenizeLang.process(&[Some("ok"), Some("ok")], &[Some("klingon"), Some("english")]);
    match r {
        Err(SearchError::UnknownLanguage(l)) => assert_eq!(l, "klingon"),
        _ => panic!("expected an unknown-language error"),
    }
}

#[test]
fn version_rows_repeat_the_engine_version() {
    let out = TantivyVersion.process(3);
    assert_eq!(out.len(), 3);
    for v in out {
        assert_eq!(v, "tantivy v0.24.2, index_format v7");
    }
    assert!(TantivyVersion.process(0).is_empty());
}
