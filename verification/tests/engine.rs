use tantivy_worker::engine::{bm25_score, bm25_search, collect_hits, top_score_bits};
use tantivy_worker::ranking::{score_bits, score_key};
use tantivy_worker::search::{parse_docs, tokenize_default, Document, SearchError};
use tantivy_worker::table::Bm25Search;

fn score(key: u32) -> f64 {
    f32::from_bits(score_bits(key)) as f64
}

fn unit_corpus() -> Vec<Document> {
    vec![
        Document { id: 0, text: "the cat sat on the warm mat".into() },
        Document { id: 1, text: "a curious cat chased the laser dot".into() },
        Document { id: 2, text: "the loyal dog barked at the mailman".into() },
        Document { id: 3, text: "the stock market crashed and finance suffered".into() },
    ]
}

fn corpus() -> Vec<Document> {
    parse_docs(
        r#"[
          "the cat sat quietly on the warm mat",
          "a curious cat chased a red laser across the floor",
          "the loyal dog barked loudly at the mailman",
          "the stock market crashed and global finance suffered"
        ]"#,
    )
    .unwrap()
}

#[test]
fn cat_query_ranks_cat_docs_first() {
    let hits = bm25_search(&unit_corpus(), "cat", "english", 10).unwrap();
    assert_eq!(hits.len(), 2, "only the two cat docs match");
    let ids: Vec<i64> = hits.iter().map(|h| h.1).collect();
    assert!(ids.contains(&0) && ids.contains(&1));
    assert!(!ids.contains(&2) && !ids.contains(&3));
    for w in hits.windows(2) {
        assert!(score(w[0].0) >= score(w[1].0), "scores must be descending");
    }
}

#[test]
fn finance_query_ranks_finance_doc() {
    let hits = bm25_search(&unit_corpus(), "finance market", "english", 10).unwrap();
    assert_eq!(hits[0].1, 3, "the finance doc ranks first");
}

#[test]
fn explicit_ids_are_preserved() {
    let docs =
        parse_docs(r#"[{"id":42,"text":"a happy cat"},{"id":7,"text":"a sad dog"}]"#).unwrap();
    let hits = bm25_search(&docs, "cat", "english", 10).unwrap();
    assert_eq!(hits.len(), 1);
    assert_eq!(hits[0].1, 42, "explicit doc id is surfaced");
}

#[test]
fn empty_corpus_and_query_yield_no_hits() {
    assert!(bm25_search(&[], "cat", "english", 10).unwrap().is_empty());
    assert!(bm25_search(&unit_corpus(), "   ", "english", 10).unwrap().is_empty());
}

#[test]
fn bm25_score_relevant_beats_irrelevant() {
    let relevant = f32::from_bits(bm25_score("the cat sat on the mat", "cat", "english").unwrap());
    let irrelevant =
        f32::from_bits(bm25_score("the stock market crashed", "cat", "english").unwrap());
    assert!(relevant > 0.0);
    assert_eq!(irrelevant, 0.0, "non-matching doc scores 0");
    assert!(relevant > irrelevant);
}

#[test]
fn cat_query_ranks_cat_docs_above_finance() {
    let hits = bm25_search(&corpus(), "cat", "english", 10).unwrap();
    assert_eq!(hits.len(), 2);
    let ids: Vec<i64> = hits.iter().map(|h| h.1).collect();
    assert!(ids.contains(&0) && ids.contains(&1), "cat docs present");
    assert!(!ids.contains(&3), "finance doc must not rank for 'cat'");
    for w in hits.windows(2) {
        assert!(score(w[0].0) >= score(w[1].0), "scores descending");
    }
    assert!(score(hits[0].0) > 0.0);
}

#[test]
fn finance_query_ranks_finance_doc_first() {
    let hits = bm25_search(&corpus(), "finance market", "english", 10).unwrap();
    assert_eq!(hits[0].1, 3, "finance doc ranks top for finance query");
}

#[test]
fn explicit_ids_round_trip() {
    let docs =
        parse_docs(r#"[{"id":100,"text":"a sleepy cat"},{"id":200,"text":"a barking dog"}]"#)
            .unwrap();
    let hits = bm25_search(&docs, "cat", "english", 10).unwrap();
    assert_eq!(hits.len(), 1);
    assert_eq!(hits[0].1, 100);
}

#[test]
fn empty_corpus_and_empty_query_yield_no_rows() {
    assert!(bm25_search(&[], "cat", "english", 10).unwrap().is_empty());
    assert!(bm25_search(&corpus(), "", "english", 10).unwrap().is_empty());
}

#[test]
fn bm25_score_relevant_exceeds_irrelevant() {
    let relevant = f32::from_bits(bm25_score("the cat sat on the mat", "cat", "english").unwrap());
    let irrelevant =
        f32::from_bits(bm25_score("the stock market crashed", "cat", "english").unwrap());
    assert!(relevant > irrelevant);
    assert_eq!(irrelevant, 0.0);
}

#[test]
fn garbage_and_empty_never_panic() {
    let _ = bm25_search(&corpus(), "!@#$%^&*", "english", 10);
    let _ = tokenize_default("");
    let _ = parse_docs("");
    assert!(tokenize_default("").unwrap().is_empty());
}

#[test]
fn search_errors_come_from_the_plan_or_the_query() {
    assert!(matches!(
        bm25_search(&corpus(), "cat", "klingon", 10),
        Err(SearchError::UnknownLanguage(l)) if l == "klingon"
    ));
    assert!(matches!(bm25_search(&corpus(), "cat AND (", "english", 10), Err(SearchError::BadQuery(_))));
    let big = "a".repeat(16 * 1024 * 1024 + 1);
    assert!(matches!(bm25_search(&corpus(), &big, "english", 10), Err(SearchError::TooLarge(_))));
    assert!(matches!(bm25_score(&big, "cat", "english"), Err(SearchError::TooLarge(_))));
    assert_eq!(bm25_score("the cat", "  ", "english").unwrap(), 0);
}

#[test]
fn conjunctive_matching_and_the_hit_limit() {
    // Every term must match.
    let hits = bm25_search(&corpus(), "cat floor", "english", 10).unwrap();
    assert_eq!(hits.iter().map(|h| h.1).collect::<Vec<_>>(), vec![1]);
    // At most `limit` hits, and at least one even for a zero limit.
    assert_eq!(bm25_search(&corpus(), "the", "english", 2).unwrap().len(), 2);
    assert_eq!(bm25_search(&corpus(), "the", "english", 0).unwrap().len(), 1);
}

#[test]
fn equal_scores_come_by_ascending_id() {
    let docs = vec![
        Document { id: 9, text: "cat".into() },
        Document { id: -2, text: "cat".into() },
        Document { id: 4, text: "cat".into() },
    ];
    let hits = bm25_search(&docs, "cat", "english", 10).unwrap();
    assert_eq!(hits.iter().map(|h| h.1).collect::<Vec<_>>(), vec![-2, 4, 9]);
}

#[test]
fn findings_are_mapped_by_position() {
    let docs = unit_corpus();
    let two = 2.0f32.to_bits();
    let one = 1.0f32.to_bits();
    let hits = collect_hits(&docs, &vec![(one, Some(3)), (two, Some(1))]).unwrap();
    assert_eq!(hits, vec![(score_key(two), 1), (score_key(one), 3)]);
    for bad in [vec![(one, None)], vec![(one, Some(4))]] {
        match collect_hits(&docs, &bad) {
            Err(SearchError::Internal(m)) => assert_eq!(m, "stored doc missing id"),
            other => panic!("expected Internal, got {other:?}"),
        }
    }
    assert_eq!(top_score_bits(&hits), two);
    assert_eq!(top_score_bits(&Vec::new()), 0);
}

#[test]
fn score_keys_order_as_the_scores() {
    let values = [-3.5f32, -1.0, -0.0, 0.0, 1.0e-30, 0.25, 2.0, 7.5, f32::INFINITY];
    for a in values {
        for b in values {
            let (ka, kb) = (score_key(a.to_bits()), score_key(b.to_bits()));
            assert_eq!(ka < kb, a < b, "{a} {b}");
            assert_eq!(ka == kb, a == b, "{a} {b}");
        }
        let back = f32::from_bits(score_bits(score_key(a.to_bits())));
        assert_eq!(back, a);
    }
}

#[test]
fn table_search_runs_the_call() {
    let f = Bm25Search;
    let hits = f.search(Some(r#"["a cat", "a dog", "two cats"]"#), Some("cat"), 10).unwrap();
    let ids: Vec<i64> = hits.iter().map(|h| h.1).collect();
    assert_eq!(ids.len(), 2);
    assert!(ids.contains(&0) && ids.contains(&2));
    assert!(f.search(None, Some("cat"), 10).unwrap().is_empty());
    assert!(f.search(Some("[]"), Some("cat"), 10).unwrap().is_empty());
    assert!(matches!(f.search(Some("oops"), Some("cat"), 10), Err(SearchError::BadDocsJson(_))));
}
