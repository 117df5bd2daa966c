//! The table functions of the worker: BM25 ranking of a JSON corpus, and the
//! list of supported stemmer languages.

use vstd::prelude::*;

use vstd::relations::sorted_by;

use crate::corpus::payload_docs;
use crate::engine::{
    bm25_search, doc_views, hit_cap, ids_from, matching_doc_has_id, plain_query, some_doc_matches,
};
use crate::ranking::hit_order;
use crate::language::{Language, SUPPORTED_LANGUAGES};
use crate::search::{
    bm25_search_plan, parse_docs, search_plan, Document, DocumentView, SearchError,
    SearchErrorView, SearchPlan, MAX_TOKEN_BYTES,
};

verus! {

/// `bm25_search(docs_json, query) -> (doc_id BIGINT, score DOUBLE)`: ranks a
/// JSON corpus against a full-text query, with the English stemmer.
pub struct Bm25Search;

/// What a `bm25_search` call comes to before any index is built: the parsed
/// corpus and the plan for it, or no row at all when an argument is NULL.
pub open spec fn bm25_call(docs_json: Option<Seq<char>>, query: Option<Seq<char>>) -> Result<
    Option<(Seq<DocumentView>, SearchPlan)>,
    SearchErrorView,
> {
    match (docs_json, query) {
        (Some(d), Some(q)) => match payload_docs(d) {
            Err(e) => Err(e),
            Ok(docs) => match search_plan(docs.len(), q, "english"@) {
                Err(e) => Err(e),
                Ok(p) => Ok(Some((docs, p))),
            },
        },
        _ => Ok(None),
    }
}

/// The text of an optional query; a NULL query reads as the empty text.
pub open spec fn query_text(query: Option<&str>) -> Seq<char> {
    match query {
        Some(q) => q@,
        None => Seq::empty(),
    }
}

/// The mathematical value of a prepared `bm25_search` call.
pub open spec fn bm25_call_view(r: Result<Option<(Vec<Document>, SearchPlan)>, SearchError>) -> Result<
    Option<(Seq<DocumentView>, SearchPlan)>,
    SearchErrorView,
> {
    match r {
        Ok(Some((docs, p))) => Ok(Some((docs@.map_values(|d: Document| d@), p))),
        Ok(None) => Ok(None),
        Err(e) => Err(e@),
    }
}

impl Bm25Search {
    /// The SQL name of the function.
    pub fn name(&self) -> (r: &'static str)
        ensures
            r@ == "bm25_search"@,
    {
        "bm25_search"
    }

    /// The stemmer language the corpus is ranked with.
    pub fn language(&self) -> (r: &'static str)
        ensures
            r@ == "english"@,
    {
        "english"
    }

    /// The upper bound on the number of ranked hits returned.
    pub fn result_limit(&self) -> (r: usize)
        ensures
            r == 10_000,
    {
        10_000
    }

    /// Parses the corpus and plans the search for the constant arguments: a
    /// NULL `docs_json` or `query` gives no row; a malformed payload, an
    /// oversized value or an unknown language is an error.
    pub fn prepare(&self, docs_json: Option<&str>, query: Option<&str>) -> (r: Result<
        Option<(Vec<Document>, SearchPlan)>,
        SearchError,
    >)
        ensures
            bm25_call_view(r) == bm25_call(
                match docs_json {
                    Some(d) => Some(d@),
                    None => None,
                },
                match query {
                    Some(q) => Some(q@),
                    None => None,
                },
            ),
    {
        match (docs_json, query) {
            (Some(d), Some(q)) => {
                let docs = parse_docs(d)?;
                let plan = bm25_search_plan(docs.as_slice(), q, self.language())?;
                Ok(Some((docs, plan)))
            },
            _ => Ok(None),
        }
    }

    /// Runs a `bm25_search` call: the corpus is parsed and the search
    /// planned; a NULL argument, an empty corpus or a blank query gives no
    /// row; otherwise the corpus is ranked against the query, keeping at most
    /// `limit` hits (at least one).
    pub fn search(&self, docs_json: Option<&str>, query: Option<&str>, limit: usize) -> (r: Result<
        Vec<(u32, i64)>,
        SearchError,
    >)
        ensures
            match bm25_call(
                match docs_json {
                    Some(d) => Some(d@),
                    None => None,
                },
                match query {
                    Some(q) => Some(q@),
                    None => None,
                },
            ) {
                Err(e) => r matches Err(x) && x@ == e,
                Ok(Some((docs, SearchPlan::Run(l)))) => {
                    &&& match r {
                        Ok(h) => {
                            &&& sorted_by(h@, hit_order())
                            &&& h@.len() <= hit_cap(limit)
                            &&& ids_from(docs, h@)
                        },
                        Err(e) => e is BadQuery || e is Internal,
                    }
                    &&& plain_query(MAX_TOKEN_BYTES, query_text(query)) ==> match r {
                        Ok(h) => {
                            &&& forall|i: int|
                                0 <= i < h@.len() ==> #[trigger] matching_doc_has_id(
                                    docs,
                                    l,
                                    query_text(query),
                                    h@[i].1,
                                )
                            &&& some_doc_matches(docs, l, query_text(query)) ==> h@.len() >= 1
                        },
                        Err(e) => e is Internal,
                    }
                },
                Ok(_) => r matches Ok(h) && h@.len() == 0,
            },
    {
        match self.prepare(docs_json, query)? {
            Some((docs, SearchPlan::Run(_))) => {
                let q = match query {
                    Some(q) => q,
                    None => "",
                };
                proof {
                    assert(doc_views(docs@) =~= docs@.map_values(|d: Document| d@));
                }
                bm25_search(docs.as_slice(), q, self.language(), limit)
            },
            _ => Ok(Vec::new()),
        }
    }
}

/// Produces the rows of a `bm25_search` call: every ranked hit in one batch,
/// then the end of the table.
pub struct Bm25Producer {
    pending: Option<Vec<(u32, i64)>>,
}

impl Bm25Producer {
    /// The hits not yet handed out, or `None` once the batch is gone.
    pub closed spec fn pending(&self) -> Option<Seq<(u32, i64)>> {
        match self.pending {
            Some(v) => Some(v@),
            None => None,
        }
    }

    /// A producer that will hand out `hits`, in the order given.
    pub fn new(hits: Vec<(u32, i64)>) -> (p: Bm25Producer)
        ensures
            p.pending() == Some(hits@),
    {
        Bm25Producer { pending: Some(hits) }
    }

    /// The next batch of rows: all hits on the first call, nothing after that.
    pub fn next_batch(&mut self) -> (r: Option<Vec<(u32, i64)>>)
        ensures
            final(self).pending() is None,
            match r {
                Some(rows) => old(self).pending() == Some(rows@),
                None => old(self).pending() is None,
            },
    {
        self.pending.take()
    }
}

/// `supported_languages() -> (lang VARCHAR)`: the Snowball stemmer language
/// ids the worker supports.
pub struct SupportedLanguages;

impl SupportedLanguages {
    /// The SQL name of the function.
    pub fn name(&self) -> (r: &'static str)
        ensures
            r@ == "supported_languages"@,
    {
        "supported_languages"
    }

    /// The number of rows the table has.
    pub fn row_count(&self) -> (r: usize)
        ensures
            r == SUPPORTED_LANGUAGES@.len(),
    {
        SUPPORTED_LANGUAGES.len()
    }

    /// A producer of the table's rows.
    pub fn producer(&self) -> (p: LangsProducer)
        ensures
            !p.finished(),
    {
        LangsProducer { done: false }
    }
}

/// The shape of the catalog table that exposes `supported_languages()` as a
/// regular table: its single column, its comment, and its constraints, each
/// a list of column positions.
pub struct LanguagesTableShape {
    /// The name of the one column, a non-NULL `VARCHAR`.
    pub column: &'static str,
    /// The table's comment.
    pub comment: &'static str,
    /// The primary key.
    pub primary_key: Vec<Vec<usize>>,
    /// The columns that are never NULL.
    pub not_null: Vec<usize>,
    /// The unique column groups.
    pub unique: Vec<Vec<usize>>,
}

/// The comment of the supported-languages catalog table.
pub const LANGUAGES_TABLE_COMMENT: &'static str =
    "The Snowball stemmer language ids this worker supports (valid `lang` values for \
     tokenize, stem, and the search analyzer).";

impl SupportedLanguages {
    /// The shape of the catalog table: the `lang` column is the row's
    /// identity, so it is the primary key, never NULL, and unique.
    pub fn table_shape(&self) -> (r: LanguagesTableShape)
        ensures
            r.column@ == "lang"@,
            r.comment@ == LANGUAGES_TABLE_COMMENT@,
            r.primary_key.deep_view() == seq![seq![0usize]],
            r.not_null@ == seq![0usize],
            r.unique.deep_view() == seq![seq![0usize]],
    {
        let pk: Vec<Vec<usize>> = vec![vec![0]];
        let uq: Vec<Vec<usize>> = vec![vec![0]];
        let nn: Vec<usize> = vec![0];
        proof {
            assert(pk@[0].deep_view() =~= seq![0usize]);
            assert(pk.deep_view()[0] == pk@[0].deep_view());
            assert(pk.deep_view() =~= seq![seq![0usize]]);
            assert(uq@[0].deep_view() =~= seq![0usize]);
            assert(uq.deep_view()[0] == uq@[0].deep_view());
            assert(uq.deep_view() =~= seq![seq![0usize]]);
            assert(nn@ =~= seq![0usize]);
            reveal_strlit("lang");
        }
        LanguagesTableShape {
            column: "lang",
            comment: LANGUAGES_TABLE_COMMENT,
            primary_key: pk,
            not_null: nn,
            unique: uq,
        }
    }
}

/// Produces the supported-languages table: every language id in one batch,
/// then the end of the table.
pub struct LangsProducer {
    done: bool,
}

impl LangsProducer {
    /// Whether the producer has handed out its batch.
    pub closed spec fn finished(&self) -> bool {
        self.done
    }

    /// The next batch of rows: all language ids on the first call, nothing
    /// after that.
    pub fn next_batch(&mut self) -> (r: Option<Vec<&'static str>>)
        ensures
            final(self).finished(),
            !old(self).finished() ==> (r matches Some(rows) && rows@ == SUPPORTED_LANGUAGES@),
            old(self).finished() ==> r is None,
    {
        if self.done {
            return None;
        }
        self.done = true;
        let mut rows: Vec<&'static str> = Vec::new();
        let mut i: usize = 0;
        while i < SUPPORTED_LANGUAGES.len()
            invariant
                i <= SUPPORTED_LANGUAGES@.len(),
                rows@ == SUPPORTED_LANGUAGES@.take(i as int),
            decreases SUPPORTED_LANGUAGES@.len() - i,
        {
            rows.push(SUPPORTED_LANGUAGES[i]);
            assert(rows@ =~= SUPPORTED_LANGUAGES@.take(i + 1));
            i = i + 1;
        }
        assert(rows@ =~= SUPPORTED_LANGUAGES@);
        Some(rows)
    }
}

} // verus!
