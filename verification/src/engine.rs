//! BM25 ranking of a corpus with tantivy. Every call builds a brand-new index
//! in a RAM directory, loads the documents, runs the query and drops the
//! index on return: nothing is persisted or shared across calls.
//!
//! tantivy scores in floating point; the library sees each score as the bit
//! pattern of the IEEE-754 value and ranks by its [`score_key`].

use vstd::prelude::*;

use vstd::relations::sorted_by;
use vstd::seq_lib::group_to_multiset_ensures;

use tantivy::collector::TopDocs;
use tantivy::query::{QueryParser, QueryParserError};
use tantivy::schema::{Field, IndexRecordOption, Schema, TextFieldIndexing, TextOptions, Value, STORED};
use tantivy::{Index, IndexWriter, Searcher, TantivyDocument, TantivyError};

use crate::ranking::{hit_order, key_of, rank_hits, ranking, score_bits, bits_of_key, score_key};
use crate::search::{
    ascii_words, bm25_search_plan, check_text_len, default_tokens, is_plain_char,
    is_text_too_large, search_plan, snowball_stem, stem_analyzer, text_fits, Document,
    DocumentView, SearchError, SearchErrorView, SearchPlan, MAX_TOKEN_BYTES,
};
use crate::language::{resolves_to, Language};

verus! {

#[verifier::external_type_specification]
#[verifier::external_body]
pub struct ExIndex(Index);

#[verifier::external_type_specification]
#[verifier::external_body]
pub struct ExField(Field);

#[verifier::external_type_specification]
#[verifier::external_body]
pub struct ExSearcher(Searcher);

#[verifier::external_type_specification]
#[verifier::external_body]
pub struct ExTantivyError(TantivyError);

#[verifier::external_type_specification]
#[verifier::external_body]
pub struct ExQueryParserError(QueryParserError);

/// The memory budget handed to the index writer, in bytes.
pub const WRITER_HEAP_BYTES: usize = 15_000_000;

/// The name under which the stemming analyzer is registered on each index.
pub const ANALYZER_NAME: &'static str = "vgi_stem";

/// An in-RAM index with a stored position field and an analyzed body field,
/// with what it analyzes by: the stemmer language and the token size limit,
/// and the texts of its committed documents, by position.
pub struct RamIndex {
    index: Index,
    pos: Field,
    body: Field,
    lang: Ghost<Language>,
    max_token_bytes: Ghost<usize>,
    texts: Ghost<Seq<Seq<char>>>,
}

/// A searcher of an index's committed documents, with what the index
/// analyzes by and the texts of those documents, by position.
pub struct IndexSearcher {
    searcher: Searcher,
    lang: Ghost<Language>,
    max_token_bytes: Ghost<usize>,
    texts: Ghost<Seq<Seq<char>>>,
}

/// The terms an index for `lang` that drops tokens of `max_token_bytes`
/// bytes or more holds for `text`: its default tokens, each Snowball-stemmed.
pub open spec fn index_terms(lang: Language, max_token_bytes: usize, text: Seq<char>) -> Seq<
    Seq<char>,
> {
    default_tokens(max_token_bytes, text).map_values(|t: Seq<char>| snowball_stem(lang, t))
}

/// A plain query: words of ASCII lower-case letters and digits, each under
/// `max_token_bytes` characters, separated by spaces; at least one word.
pub open spec fn plain_query(max_token_bytes: usize, q: Seq<char>) -> bool {
    &&& forall|i: int| 0 <= i < q.len() ==> (#[trigger] is_plain_char(q[i]) || q[i] == ' ')
    &&& ascii_words(max_token_bytes as nat, q) == ascii_words(q.len() + 1, q)
    &&& ascii_words(max_token_bytes as nat, q).len() > 0
}

/// Whether an index for `lang` dropping tokens of `max_token_bytes` bytes
/// or more holds, for `text`, the stem of every word of the query `q`.
pub open spec fn holds_all_terms(lang: Language, max_token_bytes: usize, text: Seq<char>, q: Seq<char>) -> bool {
    forall|i: int|
        0 <= i < ascii_words(max_token_bytes as nat, q).len() ==> index_terms(
            lang,
            max_token_bytes,
            text,
        ).contains(snowball_stem(lang, #[trigger] ascii_words(max_token_bytes as nat, q)[i]))
}

/// Creates an index in a RAM directory whose schema has a stored `u64`
/// field `pos` and a text field `body`, analyzed by the analyzer of
/// [`stem_analyzer`] for `lang` and `max_token_bytes`, registered under
/// `analyzer_name`, with frequencies and positions indexed. It holds no
/// document yet.
#[verifier::external_body]
fn ram_index(lang: Language, max_token_bytes: usize, analyzer_name: &str) -> (r: RamIndex)
    ensures
        r.lang@ == lang,
        r.max_token_bytes@ == max_token_bytes,
        r.texts@ == Seq::<Seq<char>>::empty(),
{
    let mut sb = Schema::builder();
    let pos = sb.add_u64_field("pos", STORED);
    let indexing = TextFieldIndexing::default().set_tokenizer(analyzer_name).set_index_option(
        IndexRecordOption::WithFreqsAndPositions,
    );
    let body = sb.add_text_field("body", TextOptions::default().set_indexing_options(indexing));
    let index = Index::create_in_ram(sb.build());
    index.tokenizers().register(analyzer_name, stem_analyzer(lang, max_token_bytes));
    RamIndex { index, pos, body, lang: Ghost(lang), max_token_bytes: Ghost(max_token_bytes), texts: Ghost(Seq::empty()) }
}

/// Loads `docs` into the empty index with an `IndexWriter` of memory budget
/// `heap_bytes`: the document at position `i` is added with `pos` `i` and
/// its text as `body`, then the writer commits; once it has, the index's
/// committed documents are those of `docs`, in order.
#[verifier::external_body]
fn fill_index(ix: &mut RamIndex, docs: &[Document], heap_bytes: usize) -> (r: Result<(), TantivyError>)
    requires
        old(ix).texts@.len() == 0,
    ensures
        final(ix).lang@ == old(ix).lang@,
        final(ix).max_token_bytes@ == old(ix).max_token_bytes@,
        r is Ok ==> final(ix).texts@ == docs@.map_values(|d: Document| d.text@),
{
    let mut writer: IndexWriter = ix.index.writer(heap_bytes)?;
    for (i, d) in docs.iter().enumerate() {
        let mut doc = TantivyDocument::new();
        doc.add_u64(ix.pos, i as u64);
        doc.add_text(ix.body, d.text.as_str());
        writer.add_document(doc)?;
    }
    writer.commit()?;
    Ok(())
}

/// A searcher of the index's committed documents (`Index::reader`, then
/// `IndexReader::searcher`); it sees the documents committed so far.
#[verifier::external_body]
fn open_searcher(ix: &RamIndex) -> (r: Result<IndexSearcher, TantivyError>)
    ensures
        r matches Ok(s) ==> s.lang@ == ix.lang@ && s.max_token_bytes@ == ix.max_token_bytes@
            && s.texts@ == ix.texts@,
{
    let reader = ix.index.reader()?;
    Ok(IndexSearcher { searcher: reader.searcher(), lang: Ghost(ix.lang@), max_token_bytes: Ghost(ix.max_token_bytes@), texts: Ghost(ix.texts@) })
}

/// Parses `query` with a `QueryParser` over the `body` field in conjunctive
/// mode (every term must match), searches with `TopDocs::with_limit(limit)`,
/// and gives each hit found as the bit pattern of its score and the stored
/// `pos` of its document. The outer error is the parser's, the inner one the
/// searcher's. `TopDocs` keeps at most `limit` hits. For a plain query the
/// grammar reads each word as one term, which the field's analyzer turns into
/// the word's stem: the query parses, every hit is a committed document
/// holding every term, and when some committed document holds every term
/// there is a hit.
#[verifier::external_body]
fn run_query(ix: &RamIndex, s: &IndexSearcher, query: &str, limit: usize) -> (r: Result<
    Result<Vec<(u32, Option<u64>)>, TantivyError>,
    QueryParserError,
>)
    requires
        limit >= 1,
        s.lang@ == ix.lang@,
        s.max_token_bytes@ == ix.max_token_bytes@,
    ensures
        r matches Ok(Ok(v)) ==> v@.len() <= limit,
        plain_query(s.max_token_bytes@, query@) ==> r is Ok,
        plain_query(s.max_token_bytes@, query@) ==> (r matches Ok(Ok(v)) ==> forall|k: int|
            0 <= k < v@.len() ==> ((#[trigger] v@[k]).1 matches Some(p) && p < s.texts@.len()
                && holds_all_terms(s.lang@, s.max_token_bytes@, s.texts@[p as int], query@))),
        plain_query(s.max_token_bytes@, query@) && (exists|j: int|
            0 <= j < s.texts@.len() && holds_all_terms(
                s.lang@,
                s.max_token_bytes@,
                #[trigger] s.texts@[j],
                query@,
            )) ==> (r matches Ok(Ok(v)) ==> v@.len() >= 1),
{
    let mut parser = QueryParser::for_index(&ix.index, vec![ix.body]);
    parser.set_conjunction_by_default();
    let q = parser.parse_query(query)?;
    let top = match s.searcher.search(&q, &TopDocs::with_limit(limit)) { Ok(t) => t, Err(e) => return Ok(Err(e)) };
    let mut out = Vec::new();
    for (score, addr) in top {
        let d: TantivyDocument = match s.searcher.doc(addr) { Ok(d) => d, Err(e) => return Ok(Err(e)) };
        let pos = match d.get_first(ix.pos) { Some(v) => v.as_u64(), None => None };
        out.push((score.to_bits(), pos));
    }
    Ok(Ok(out))
}

/// The `Display` text of a tantivy error.
#[verifier::external_body]
fn engine_error_message(e: &TantivyError) -> String {
    e.to_string()
}

/// The `Display` text of a query parser error.
#[verifier::external_body]
fn query_error_message(e: &QueryParserError) -> String {
    e.to_string()
}

/// An engine error as a search error.
fn internal(e: &TantivyError) -> (r: SearchError)
    ensures
        r is Internal,
{
    SearchError::Internal(engine_error_message(e))
}

/// The message of the error for a hit whose document carries no usable
/// position.
pub open spec fn missing_id_message() -> Seq<char> {
    "stored doc missing id"@
}

/// The views of a slice of documents.
pub open spec fn doc_views(docs: Seq<Document>) -> Seq<DocumentView> {
    docs.map_values(|d: Document| d@)
}

/// The hits that the engine's findings describe, in the order found: each
/// finding's score key with the id of the document at its stored position;
/// the first finding without a position in the corpus is an internal error.
pub open spec fn found_hits(docs: Seq<DocumentView>, found: Seq<(u32, Option<u64>)>) -> Result<
    Seq<(u32, i64)>,
    SearchErrorView,
>
    decreases found.len(),
{
    if found.len() == 0 {
        Ok(Seq::empty())
    } else {
        match found_hits(docs, found.drop_last()) {
            Err(e) => Err(e),
            Ok(hs) => match found.last().1 {
                Some(p) => if p < docs.len() {
                    Ok(hs.push((key_of(found.last().0) as u32, docs[p as int].id)))
                } else {
                    Err(SearchErrorView::Internal(missing_id_message()))
                },
                None => Err(SearchErrorView::Internal(missing_id_message())),
            },
        }
    }
}

/// Whether some document of `docs` has the id `id`.
pub open spec fn has_id(docs: Seq<DocumentView>, id: i64) -> bool {
    exists|j: int| 0 <= j < docs.len() && docs[j].id == id
}

/// Whether every hit of `hits` carries the id of a document of `docs`.
pub open spec fn ids_from(docs: Seq<DocumentView>, hits: Seq<(u32, i64)>) -> bool {
    forall|i: int| 0 <= i < hits.len() ==> #[trigger] has_id(docs, hits[i].1)
}

/// Once a prefix of the findings fails, all of them fail the same way.
proof fn lemma_found_hits_error_persists(
    docs: Seq<DocumentView>,
    found: Seq<(u32, Option<u64>)>,
    k: int,
)
    requires
        0 <= k <= found.len(),
        found_hits(docs, found.take(k)) is Err,
    ensures
        found_hits(docs, found) == found_hits(docs, found.take(k)),
    decreases found.len() - k,
{
    if k == found.len() {
        assert(found.take(k) =~= found);
    } else {
        assert(found.take(k + 1).drop_last() =~= found.take(k));
        lemma_found_hits_error_persists(docs, found, k + 1);
    }
}

/// Whether some finding of `found` is the document at position `p`.
pub open spec fn found_at(found: Seq<(u32, Option<u64>)>, p: u64) -> bool {
    exists|k: int| 0 <= k < found.len() && (#[trigger] found[k]).1 == Some(p)
}

/// Whether the id `id` is that of a document of `docs` at a position some
/// finding of `found` names.
pub open spec fn hit_traced(docs: Seq<DocumentView>, found: Seq<(u32, Option<u64>)>, id: i64) -> bool {
    exists|p: u64| p < docs.len() && docs[p as int].id == id && #[trigger] found_at(found, p)
}

/// Whether some document of `docs` with the id `id` holds, for `lang`,
/// every term of the query `q`.
pub open spec fn matching_doc_has_id(docs: Seq<DocumentView>, lang: Language, q: Seq<char>, id: i64) -> bool {
    exists|j: int|
        0 <= j < docs.len() && docs[j].id == id && holds_all_terms(
            lang,
            MAX_TOKEN_BYTES,
            #[trigger] docs[j].text,
            q,
        )
}

/// Whether some document of `docs` holds, for `lang`, every term of the
/// query `q`.
pub open spec fn some_doc_matches(docs: Seq<DocumentView>, lang: Language, q: Seq<char>) -> bool {
    exists|j: int| 0 <= j < docs.len() && holds_all_terms(lang, MAX_TOKEN_BYTES, #[trigger] docs[j].text, q)
}

/// The mathematical value of a hits result.
pub open spec fn hits_result_view(r: Result<Vec<(u32, i64)>, SearchError>) -> Result<
    Seq<(u32, i64)>,
    SearchErrorView,
> {
    match r {
        Ok(h) => Ok(h@),
        Err(e) => Err(e@),
    }
}

/// The ranked hits of the engine's findings `found` over `docs`: each
/// finding's document id by its stored position, in reporting order.
pub fn collect_hits(docs: &[Document], found: &Vec<(u32, Option<u64>)>) -> (r: Result<
    Vec<(u32, i64)>,
    SearchError,
>)
    ensures
        hits_result_view(r) == match found_hits(doc_views(docs@), found@) {
            Err(e) => Err(e),
            Ok(hs) => Ok(ranking(hs)),
        },
        r matches Ok(h) ==> {
            &&& sorted_by(h@, hit_order())
            &&& h@.len() == found@.len()
            &&& ids_from(doc_views(docs@), h@)
            &&& forall|i: int|
                0 <= i < h@.len() ==> #[trigger] hit_traced(doc_views(docs@), found@, h@[i].1)
        },
        r matches Err(e) ==> e is Internal,
{
    broadcast use group_to_multiset_ensures;

    let ghost dv = doc_views(docs@);
    let mut hits: Vec<(u32, i64)> = Vec::new();
    let n = found.len();
    let mut i: usize = 0;
    while i < n
        invariant
            n == found@.len(),
            i <= n,
            dv == doc_views(docs@),
            found_hits(dv, found@.take(i as int)) == Ok::<Seq<(u32, i64)>, SearchErrorView>(hits@),
            hits@.len() == i,
            ids_from(doc_views(docs@), hits@),
            forall|k: int| 0 <= k < hits@.len() ==> #[trigger] hit_traced(dv, found@, hits@[k].1),
        decreases n - i,
    {
        let (bits, pos) = found[i];
        proof {
            assert(found@.take(i + 1).drop_last() =~= found@.take(i as int));
            assert(found@.take(i + 1).last() == found@[i as int]);
        }
        match pos {
            Some(p) => {
                if p < docs.len() as u64 {
                    let id = docs[p as usize].id;
                    proof {
                        assert(dv[p as int].id == id);
                    }
                    let ghost old_hits = hits@;
                    hits.push((score_key(bits), id));
                    proof {
                        assert forall|k: int| 0 <= k < hits@.len() implies #[trigger] has_id(
                            dv,
                            hits@[k].1,
                        ) by {
                            if k == hits@.len() - 1 {
                                assert(dv[p as int].id == hits@[k].1);
                            } else {
                                assert(hits@[k] == old_hits[k]);
                            }
                        }
                        assert(found@[i as int].1 == Some(p));
                        assert(found_at(found@, p));
                        assert forall|k: int| 0 <= k < hits@.len() implies #[trigger] hit_traced(
                            dv,
                            found@,
                            hits@[k].1,
                        ) by {
                            if k == hits@.len() - 1 {
                                assert(dv[p as int].id == hits@[k].1);
                            } else {
                                assert(hits@[k] == old_hits[k]);
                            }
                        }
                    }
                } else {
                    proof {
                        lemma_found_hits_error_persists(dv, found@, i + 1);
                    }
                    return Err(SearchError::Internal("stored doc missing id".to_owned()));
                }
            },
            None => {
                proof {
                    lemma_found_hits_error_persists(dv, found@, i + 1);
                }
                return Err(SearchError::Internal("stored doc missing id".to_owned()));
            },
        }
        i = i + 1;
    }
    proof {
        assert(found@.take(n as int) =~= found@);
    }
    let ghost before = hits@;
    let ranked = rank_hits(hits);
    proof {
        assert forall|i: int| 0 <= i < ranked@.len() implies #[trigger] has_id(
            dv,
            ranked@[i].1,
        ) by {
            assert(ranked@.to_multiset().count(ranked@[i]) > 0);
            assert(before.to_multiset().count(ranked@[i]) > 0);
            assert(before.contains(ranked@[i]));
            let k = choose|k: int| 0 <= k < before.len() && before[k] == ranked@[i];
            assert(has_id(dv, before[k].1));
        }
        assert forall|i: int| 0 <= i < ranked@.len() implies #[trigger] hit_traced(
            dv,
            found@,
            ranked@[i].1,
        ) by {
            assert(ranked@.to_multiset().count(ranked@[i]) > 0);
            assert(before.to_multiset().count(ranked@[i]) > 0);
            assert(before.contains(ranked@[i]));
            let k = choose|k: int| 0 <= k < before.len() && before[k] == ranked@[i];
            assert(hit_traced(dv, found@, before[k].1));
        }
        assert(ranked@.len() == ranked@.to_multiset().len());
        assert(before.len() == before.to_multiset().len());
    }
    Ok(ranked)
}

/// The largest number of hits a search with `limit` reports: `limit`, and
/// at least one.
pub open spec fn hit_cap(limit: usize) -> nat {
    if limit == 0 {
        1
    } else {
        limit as nat
    }
}

/// Builds an ephemeral RAM index over `docs` (analyzed with the `lang`
/// stemmer), runs the BM25 `query`, and returns up to `limit` hits (at least
/// one) as `(score_key, doc_id)` pairs ranked by descending score, ties
/// broken by ascending doc id. An oversized query or an unknown language is
/// an error; an empty corpus or a blank query has no hit; an unparseable
/// query is `BadQuery` and a failure of the engine is `Internal`.
pub fn bm25_search(docs: &[Document], query: &str, lang: &str, limit: usize) -> (r: Result<
    Vec<(u32, i64)>,
    SearchError,
>)
    ensures
        match search_plan(docs@.len(), query@, lang@) {
            Err(e) => r matches Err(x) && x@ == e,
            Ok(SearchPlan::NoHits) => r matches Ok(h) && h@.len() == 0,
            Ok(SearchPlan::Run(l)) => {
                &&& match r {
                    Ok(h) => {
                        &&& sorted_by(h@, hit_order())
                        &&& h@.len() <= hit_cap(limit)
                        &&& ids_from(doc_views(docs@), h@)
                    },
                    Err(e) => e is BadQuery || e is Internal,
                }
                &&& plain_query(MAX_TOKEN_BYTES, query@) ==> match r {
                    Ok(h) => {
                        &&& forall|i: int|
                            0 <= i < h@.len() ==> #[trigger] matching_doc_has_id(
                                doc_views(docs@),
                                l,
                                query@,
                                h@[i].1,
                            )
                        &&& some_doc_matches(doc_views(docs@), l, query@) ==> h@.len() >= 1
                    },
                    Err(e) => e is Internal,
                }
            },
        },
{
    let l = match bm25_search_plan(docs, query, lang) {
        Err(e) => return Err(e),
        Ok(SearchPlan::NoHits) => return Ok(Vec::new()),
        Ok(SearchPlan::Run(l)) => l,
    };
    run_search(docs, query, l, if limit == 0 { 1 } else { limit })
}

/// Indexes `docs` with the stemmer for `lang`, runs `query` and ranks what
/// it finds, keeping at most `limit` hits.
fn run_search(docs: &[Document], query: &str, lang: Language, limit: usize) -> (r: Result<
    Vec<(u32, i64)>,
    SearchError,
>)
    requires
        limit >= 1,
    ensures
        match r {
            Ok(h) => {
                &&& sorted_by(h@, hit_order())
                &&& h@.len() <= limit
                &&& ids_from(doc_views(docs@), h@)
            },
            Err(e) => e is BadQuery || e is Internal,
        },
        plain_query(MAX_TOKEN_BYTES, query@) ==> match r {
            Ok(h) => {
                &&& forall|i: int|
                    0 <= i < h@.len() ==> #[trigger] matching_doc_has_id(
                        doc_views(docs@),
                        lang,
                        query@,
                        h@[i].1,
                    )
                &&& some_doc_matches(doc_views(docs@), lang, query@) ==> h@.len() >= 1
            },
            Err(e) => e is Internal,
        },
{
    let mut ix = ram_index(lang, MAX_TOKEN_BYTES, ANALYZER_NAME);
    if let Err(e) = fill_index(&mut ix, docs, WRITER_HEAP_BYTES) {
        return Err(internal(&e));
    }
    let searcher = match open_searcher(&ix) {
        Ok(s) => s,
        Err(e) => return Err(internal(&e)),
    };
    let ghost texts = docs@.map_values(|d: Document| d.text@);
    let ghost dv = doc_views(docs@);
    assert(searcher.texts@ == texts);
    let outcome = run_query(&ix, &searcher, query, limit);
    let found = match outcome {
        Err(e) => return Err(SearchError::BadQuery(query_error_message(&e))),
        Ok(Err(e)) => return Err(internal(&e)),
        Ok(Ok(v)) => v,
    };
    let r = collect_hits(docs, &found);
    proof {
        if plain_query(MAX_TOKEN_BYTES, query@) {
            if r is Ok {
                let h = r->Ok_0@;
                assert forall|i: int| 0 <= i < h.len() implies #[trigger] matching_doc_has_id(
                    dv,
                    lang,
                    query@,
                    h[i].1,
                ) by {
                    assert(hit_traced(dv, found@, h[i].1));
                    let p = choose|p: u64| p < dv.len() && dv[p as int].id == h[i].1 && #[trigger] found_at(found@, p);
                    let k = choose|k: int| 0 <= k < found@.len() && (#[trigger] found@[k]).1 == Some(p);
                    assert(found@[k].1 matches Some(q) && (q < texts.len() && holds_all_terms(lang, MAX_TOKEN_BYTES, texts[q as int], query@)));
                    assert(texts[p as int] == dv[p as int].text);
                }
                if some_doc_matches(dv, lang, query@) {
                    let j = choose|j: int| 0 <= j < dv.len() && holds_all_terms(lang, MAX_TOKEN_BYTES, #[trigger] dv[j].text, query@);
                    assert(texts[j] == dv[j].text);
                }
            }
        }
    }
    r
}

/// The score reported for a document against a query, given the hits of a
/// one-document search: the first hit's score bits, or the bits of `0.0`
/// when nothing matched.
pub fn top_score_bits(hits: &Vec<(u32, i64)>) -> (b: u32)
    ensures
        b == if hits@.len() == 0 {
            0u32
        } else {
            bits_of_key(hits@[0].0)
        },
{
    if hits.len() == 0 {
        0
    } else {
        score_bits(hits[0].0)
    }
}

/// Scores a single document against `query` (`lang` stemmer) with a
/// one-document ephemeral index: the bit pattern of the IEEE-754 BM25 score,
/// or of `0.0` if the document does not match (or the query is blank). An
/// oversized text, an unknown language or a bad query is an error.
pub fn bm25_score(doc_text: &str, query: &str, lang: &str) -> (r: Result<u32, SearchError>)
    ensures
        !text_fits(doc_text@) ==> is_text_too_large(r, doc_text@),
        text_fits(doc_text@) ==> match search_plan(1, query@, lang@) {
            Err(e) => r matches Err(x) && x@ == e,
            Ok(SearchPlan::NoHits) => r == Ok::<u32, SearchError>(0u32),
            Ok(SearchPlan::Run(l)) => {
                &&& r matches Err(e) ==> (e is BadQuery || e is Internal)
                &&& plain_query(MAX_TOKEN_BYTES, query@) ==> (r matches Err(e) ==> e is Internal)
                &&& plain_query(MAX_TOKEN_BYTES, query@) && !holds_all_terms(
                    l,
                    MAX_TOKEN_BYTES,
                    doc_text@,
                    query@,
                ) ==> (r matches Ok(b) ==> b == 0)
            },
        },
{
    check_text_len(doc_text)?;
    let mut docs: Vec<Document> = Vec::new();
    docs.push(Document { id: 0, text: doc_text.to_owned() });
    proof {
        assert(doc_views(docs@)[0].text == doc_text@);
    }
    let hits = bm25_search(docs.as_slice(), query, lang, 1)?;
    proof {
        if hits@.len() > 0 && plain_query(MAX_TOKEN_BYTES, query@) {
            assert(matching_doc_has_id(doc_views(docs@), resolves_to(lang@)->0, query@, hits@[0].1));
        }
    }
    Ok(top_score_bits(&hits))
}

} // verus!
