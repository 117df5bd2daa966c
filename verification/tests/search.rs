use tantivy::tokenizer::{
    Language as TvLanguage, LowerCaser, RemoveLongFilter, SimpleTokenizer, Stemmer, TextAnalyzer,
};
use tantivy_worker::language::resolve_language;
use tantivy_worker::search::{
    parse_docs, stem, tantivy_version, tokenize_default, tokenize_lang, SearchError,
    SUPPORTED_LANGUAGES,
};

#[test]
fn tokenize_default_splits_and_lowercases() {
    let toks = tokenize_default("Running quickly, CATS!").unwrap();
    assert_eq!(toks, vec!["running", "quickly", "cats"]);
}

#[test]
fn tokenize_english_stems() {
    let toks = tokenize_lang("Running quickly", "english").unwrap();
    assert_eq!(toks, vec!["run", "quick"]);
}

#[test]
fn stem_english_running_is_run() {
    assert_eq!(stem("running", "english").unwrap(), "run");
    assert_eq!(stem("cats", "english").unwrap(), "cat");
}

#[test]
fn empty_text_is_empty_not_error() {
    assert!(tokenize_default("").unwrap().is_empty());
    assert_eq!(stem("", "english").unwrap(), "");
}

#[test]
fn unknown_language_is_error() {
    assert!(matches!(
        stem("x", "klingon"),
        Err(SearchError::UnknownLanguage(_))
    ));
    assert!(matches!(
        tokenize_lang("x", "klingon"),
        Err(SearchError::UnknownLanguage(_))
    ));
}

#[test]
fn parse_docs_forms() {
    assert!(parse_docs("").unwrap().is_empty());
    assert!(parse_docs("[]").unwrap().is_empty());
    assert!(parse_docs("null").unwrap().is_empty());
    let strs = parse_docs(r#"["a","b"]"#).unwrap();
    assert_eq!(strs.len(), 2);
    assert_eq!(strs[0].id, 0);
    assert_eq!(strs[1].id, 1);
    assert!(parse_docs("not json").is_err());
    assert!(
        parse_docs(r#"{"id":1}"#).is_err(),
        "top-level must be array"
    );
    assert!(
        parse_docs(r#"[{"text":1}]"#).is_err(),
        "text must be string"
    );
}

#[test]
fn search_supported_languages_includes_english() {
    assert!(SUPPORTED_LANGUAGES.contains(&"english"));
    assert_eq!(SUPPORTED_LANGUAGES.len(), 18);
    for l in SUPPORTED_LANGUAGES {
        assert!(resolve_language(l).is_ok(), "{l} must resolve");
    }
}

#[test]
fn version_string_mentions_tantivy() {
    assert!(tantivy_version().contains("tantivy"));
}

#[test]
fn tokenize_default_and_lang() {
    assert_eq!(
        tokenize_default("Running quickly").unwrap(),
        vec!["running", "quickly"]
    );
    assert_eq!(
        tokenize_lang("Running quickly", "english").unwrap(),
        vec!["run", "quick"]
    );
}

#[test]
fn stem_english() {
    assert_eq!(stem("running", "english").unwrap(), "run");
    assert_eq!(stem("dogs", "english").unwrap(), "dog");
}

#[test]
fn version_string_present() {
    assert!(tantivy_version().contains("tantivy"));
}

#[test]
fn unknown_language_and_bad_json_are_errors() {
    assert!(matches!(
        stem("x", "klingon"),
        Err(SearchError::UnknownLanguage(_))
    ));
    assert!(matches!(
        parse_docs("not json"),
        Err(SearchError::BadDocsJson(_))
    ));
}

#[test]
fn stemming_refines_default_tokens() {
    let text = "The Dogs were Running, quickly!";
    let plain = tokenize_default(text).unwrap();
    let stemmed = tokenize_lang(text, "en").unwrap();
    assert_eq!(plain.len(), stemmed.len());
    for (p, s) in plain.iter().zip(stemmed.iter()) {
        assert_eq!(&stem(p, "english").unwrap(), s);
    }
}

#[test]
fn stem_joins_multiple_tokens() {
    assert_eq!(stem("Running dogs", "english").unwrap(), "run dog");
    assert_eq!(stem("   ", "english").unwrap(), "");
}

#[test]
fn engine_version_is_exact() {
    assert_eq!(tantivy_version(), "tantivy v0.24.2, index_format v7");
    assert_eq!(tantivy_worker::version(), "0.1.0");
}

#[test]
fn oversized_text_is_checked_before_the_language() {
    let big = "a".repeat(16 * 1024 * 1024 + 1);
    assert!(matches!(tokenize_lang(&big, "klingon"), Err(SearchError::TooLarge(_))));
    assert!(matches!(stem(&big, "english"), Err(SearchError::TooLarge(_))));
    assert!(matches!(tokenize_default(&big), Err(SearchError::TooLarge(_))));
}

#[test]
fn each_language_uses_its_own_stemmer() {
    let expected = [
        ("arabic", TvLanguage::Arabic),
        ("danish", TvLanguage::Danish),
        ("dutch", TvLanguage::Dutch),
        ("english", TvLanguage::English),
        ("finnish", TvLanguage::Finnish),
        ("french", TvLanguage::French),
        ("german", TvLanguage::German),
        ("greek", TvLanguage::Greek),
        ("hungarian", TvLanguage::Hungarian),
        ("italian", TvLanguage::Italian),
        ("norwegian", TvLanguage::Norwegian),
        ("portuguese", TvLanguage::Portuguese),
        ("romanian", TvLanguage::Romanian),
        ("russian", TvLanguage::Russian),
        ("spanish", TvLanguage::Spanish),
        ("swedish", TvLanguage::Swedish),
        ("tamil", TvLanguage::Tamil),
        ("turkish", TvLanguage::Turkish),
    ];
    let text = "nationalities runnings laufenden continuellement bibliotecas \
                kirjastoissa книгами κόσμους evlerimizden மரங்கள் المكتبات";
    for (id, tv) in expected {
        let mut analyzer = TextAnalyzer::builder(SimpleTokenizer::default())
            .filter(RemoveLongFilter::limit(40))
            .filter(LowerCaser)
            .filter(Stemmer::new(tv))
            .build();
        let mut stream = analyzer.token_stream(text);
        let mut want = Vec::new();
        while stream.advance() {
            want.push(stream.token().text.clone());
        }
        assert_eq!(tokenize_lang(text, id).unwrap(), want, "{id}");
    }
}

#[test]
fn stemmed_tokens_are_the_stems_of_the_default_tokens() {
    let text = "Running quickly, the CATS were jumping over 3 fences!";
    for lang in ["english", "german", "fr", ""] {
        let stemmed = tokenize_lang(text, lang).unwrap();
        let each: Vec<String> = tokenize_default(text)
            .unwrap()
            .iter()
            .map(|t| stem(t, lang).unwrap())
            .collect();
        assert_eq!(stemmed, each, "{lang}");
    }
}

#[test]
fn ascii_text_splits_into_lowercased_runs() {
    let long39 = "a".repeat(39);
    let long40 = "B".repeat(40);
    let text = format!("Hello,  World!! x1_Y2-z3 {long39} {long40}.end\t\nTAB42");
    let want: Vec<String> = text
        .split(|c: char| !c.is_ascii_alphanumeric())
        .filter(|w| !w.is_empty() && w.len() < 40)
        .map(|w| w.to_ascii_lowercase())
        .collect();
    assert_eq!(
        want,
        vec!["hello", "world", "x1", "y2", "z3", long39.as_str(), "end", "tab42"]
    );
    assert_eq!(tokenize_default(&text).unwrap(), want);
    let stemmed: Vec<String> = want.iter().map(|w| stem(w, "english").unwrap()).collect();
    assert_eq!(tokenize_lang(&text, "english").unwrap(), stemmed);
}

#[test]
fn errors_read_as_the_worker_reports_them() {
    let cases = [
        (SearchError::UnknownLanguage("klingon".into()), "unknown stemmer language 'klingon'; see supported_languages()"),
        (SearchError::BadDocsJson("x".into()), "invalid docs_json: x"),
        (SearchError::BadQuery("y".into()), "invalid query: y"),
        (SearchError::TooLarge("z".into()), "input too large: z"),
        (SearchError::Internal("w".into()), "internal search error: w"),
    ];
    for (e, m) in cases {
        assert_eq!(e.message(), m);
    }
}
