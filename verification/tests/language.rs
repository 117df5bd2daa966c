use tantivy_worker::language::{resolve_language, Language, SUPPORTED_LANGUAGES};
use tantivy_worker::search::SearchError;

#[test]
fn iso_codes_and_case_and_padding_resolve() {
    assert_eq!(resolve_language("en").unwrap(), Language::English);
    assert_eq!(resolve_language(" English\n").unwrap(), Language::English);
    assert_eq!(resolve_language("DE").unwrap(), Language::German);
    assert_eq!(resolve_language("nb").unwrap(), Language::Norwegian);
    assert_eq!(resolve_language("No").unwrap(), Language::Norwegian);
    assert_eq!(resolve_language("\u{a0}tamil\u{2003}").unwrap(), Language::Tamil);
}

#[test]
fn unknown_language_keeps_the_id_as_given() {
    match resolve_language(" Klingon ") {
        Err(SearchError::UnknownLanguage(m)) => assert_eq!(m, " Klingon "),
        other => panic!("expected UnknownLanguage, got {other:?}"),
    }
    assert!(resolve_language("engl ish").is_err());
    assert!(resolve_language("ENGLİSH").is_err());
}

#[test]
fn every_listed_id_names_its_language() {
    for l in SUPPORTED_LANGUAGES {
        assert_eq!(resolve_language(l).unwrap().id(), l);
    }
    let mut sorted = SUPPORTED_LANGUAGES.to_vec();
    sorted.dedup();
    assert_eq!(sorted.len(), 18);
}

#[test]
fn empty_language_selects_english() {
    assert_eq!(resolve_language("").unwrap(), Language::English);
    assert_eq!(resolve_language(" \t\n").unwrap(), Language::English);
    assert_eq!(
        tantivy_worker::search::tokenize_lang("Running quickly", "").unwrap(),
        vec!["run", "quick"]
    );
    assert_eq!(tantivy_worker::search::stem("running", "  ").unwrap(), "run");
}
