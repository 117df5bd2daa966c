//! The per-row scalar functions of the worker, over a batch of rows: each
//! row's text (and language) is an optional value; a NULL argument gives a
//! NULL result, and the first failing row fails the whole batch.

use vstd::prelude::*;

use crate::meta::{example_queries_tag, json_example_array, json_string_array, object_tags, tag_views};
use crate::search::{
    default_tokenization, lang_tokenization, stem, string_result_view, tantivy_version,
    tokenize_default, tokenize_lang, tokens_result_view, word_stemming, SearchError,
    SearchErrorView,
};
use crate::language::resolves_to;
use crate::search::{default_tokens, snowball_stem, text_fits, MAX_TOKEN_BYTES};
use crate::text::{join, views};

verus! {

/// The per-row results `rs` gathered in order; the first failing row gives
/// the error.
pub open spec fn gather<B>(rs: Seq<Result<B, SearchErrorView>>) -> Result<Seq<B>, SearchErrorView>
    decreases rs.len(),
{
    if rs.len() == 0 {
        Ok(Seq::empty())
    } else {
        match gather(rs.drop_last()) {
            Err(e) => Err(e),
            Ok(bs) => match rs.last() {
                Err(e) => Err(e),
                Ok(b) => Ok(bs.push(b)),
            },
        }
    }
}

/// Once a prefix of the rows fails, the whole batch fails the same way.
pub proof fn lemma_gather_error_persists<B>(rs: Seq<Result<B, SearchErrorView>>, k: int)
    requires
        0 <= k <= rs.len(),
        gather(rs.take(k)) is Err,
    ensures
        gather(rs) == gather(rs.take(k)),
    decreases rs.len() - k,
{
    if k == rs.len() {
        assert(rs.take(k) =~= rs);
    } else {
        assert(rs.take(k + 1).drop_last() =~= rs.take(k));
        lemma_gather_error_persists(rs, k + 1);
    }
}

/// A batch that succeeds has one result per row, each the row's own result.
pub proof fn lemma_gather_ok<B>(rs: Seq<Result<B, SearchErrorView>>)
    requires
        gather(rs) is Ok,
    ensures
        gather(rs)->Ok_0.len() == rs.len(),
        forall|i: int| 0 <= i < rs.len() ==> rs[i] == Ok::<B, SearchErrorView>(#[trigger] gather(rs)->Ok_0[i]),
    decreases rs.len(),
{
    if rs.len() > 0 {
        lemma_gather_ok(rs.drop_last());
        assert forall|i: int| 0 <= i < rs.len() implies rs[i] == Ok::<B, SearchErrorView>(#[trigger] gather(rs)->Ok_0[i]) by {
            if i < rs.len() - 1 {
                assert(rs.drop_last()[i] == rs[i]);
            }
        }
    }
}

/// A batch whose rows all succeed succeeds.
pub proof fn lemma_gather_all_ok<B>(rs: Seq<Result<B, SearchErrorView>>)
    requires
        forall|i: int| 0 <= i < rs.len() ==> #[trigger] rs[i] is Ok,
    ensures
        gather(rs) is Ok,
    decreases rs.len(),
{
    if rs.len() > 0 {
        let p = rs.drop_last();
        assert forall|i: int| 0 <= i < p.len() implies #[trigger] p[i] is Ok by {
            assert(p[i] == rs[i]);
        }
        lemma_gather_all_ok(p);
        assert(rs.last() == rs[rs.len() - 1]);
    }
}

/// The text of an optional argument.
pub open spec fn opt_view(a: Option<&str>) -> Option<Seq<char>> {
    match a {
        Some(s) => Some(s@),
        None => None,
    }
}

/// The texts of a column of optional arguments.
pub open spec fn arg_views(a: Seq<Option<&str>>) -> Seq<Option<Seq<char>>> {
    a.map_values(|x: Option<&str>| opt_view(x))
}

/// A row's result: NULL when an argument is NULL, otherwise `f`'s outcome.
pub open spec fn lift_row<B>(r: Option<Result<B, SearchErrorView>>) -> Result<Option<B>, SearchErrorView> {
    match r {
        None => Ok(None),
        Some(Err(e)) => Err(e),
        Some(Ok(b)) => Ok(Some(b)),
    }
}

/// The `tokenize(text)` result of one row.
pub open spec fn tokenize_row(text: Option<Seq<char>>) -> Result<Option<Seq<Seq<char>>>, SearchErrorView> {
    match text {
        None => Ok(None),
        Some(t) => lift_row(Some(default_tokenization(t))),
    }
}

/// The `tokenize(text)` results of the rows of a batch.
pub open spec fn tokenize_rows(texts: Seq<Option<Seq<char>>>) -> Seq<
    Result<Option<Seq<Seq<char>>>, SearchErrorView>,
> {
    Seq::new(texts.len(), |i: int| tokenize_row(texts[i]))
}

/// The `tokenize(text, lang)` result of one row.
pub open spec fn tokenize_lang_row(text: Option<Seq<char>>, lang: Option<Seq<char>>) -> Result<
    Option<Seq<Seq<char>>>,
    SearchErrorView,
> {
    match (text, lang) {
        (Some(t), Some(l)) => lift_row(Some(lang_tokenization(t, l))),
        _ => Ok(None),
    }
}

/// The `stem(word, lang)` result of one row.
pub open spec fn stem_row(word: Option<Seq<char>>, lang: Option<Seq<char>>) -> Result<
    Option<Seq<char>>,
    SearchErrorView,
> {
    match (word, lang) {
        (Some(w), Some(l)) => lift_row(Some(word_stemming(w, l))),
        _ => Ok(None),
    }
}

/// The mathematical value of a batch of token-list rows.
pub open spec fn token_rows_view(r: Result<Vec<Option<Vec<String>>>, SearchError>) -> Result<
    Seq<Option<Seq<Seq<char>>>>,
    SearchErrorView,
> {
    match r {
        Ok(rows) => Ok(
            rows@.map_values(
                |o: Option<Vec<String>>|
                    match o {
                        Some(toks) => Some(views(toks@)),
                        None => None,
                    },
            ),
        ),
        Err(e) => Err(e@),
    }
}

/// The mathematical value of a batch of string rows.
pub open spec fn string_rows_view(r: Result<Vec<Option<String>>, SearchError>) -> Result<
    Seq<Option<Seq<char>>>,
    SearchErrorView,
> {
    match r {
        Ok(rows) => Ok(
            rows@.map_values(
                |o: Option<String>|
                    match o {
                        Some(s) => Some(s@),
                        None => None,
                    },
            ),
        ),
        Err(e) => Err(e@),
    }
}

/// A `tokenize` batch in which every non-NULL text is within bound
/// succeeds, with one result per row: NULL for a NULL text, the text's
/// default tokens otherwise.
pub proof fn lemma_tokenize_batch(texts: Seq<Option<Seq<char>>>)
    requires
        forall|i: int| 0 <= i < texts.len() ==> (#[trigger] texts[i] matches Some(t) ==> crate::search::text_fits(t)),
    ensures
        gather(tokenize_rows(texts)) is Ok,
        gather(tokenize_rows(texts))->Ok_0.len() == texts.len(),
        forall|i: int|
            0 <= i < texts.len() ==> #[trigger] gather(
                tokenize_rows(texts),
            )->Ok_0[i] == match texts[i] {
                None => None,
                Some(t) => Some(crate::search::default_tokens(crate::search::MAX_TOKEN_BYTES, t)),
            },
{
    let rs = tokenize_rows(texts);
    assert forall|i: int| 0 <= i < rs.len() implies #[trigger] rs[i] is Ok by {
        assert(texts[i] matches Some(t) ==> crate::search::text_fits(t));
    }
    lemma_gather_all_ok(rs);
    lemma_gather_ok(rs);
    assert forall|i: int| 0 <= i < texts.len() implies #[trigger] gather(rs)->Ok_0[i] == match texts[i] {
        None => None,
        Some(t) => Some(crate::search::default_tokens(crate::search::MAX_TOKEN_BYTES, t)),
    } by {
        assert(rs[i] == Ok::<Option<Seq<Seq<char>>>, SearchErrorView>(gather(rs)->Ok_0[i]));
    }
}

/// A `tokenize(text, lang)` batch whose non-NULL texts are within bound and
/// whose non-NULL language ids all resolve succeeds, one result per row: NULL
/// when the row's text or language is NULL, otherwise the default tokens of
/// the row's own text, each Snowball-stemmed for the row's own language.
pub proof fn lemma_tokenize_lang_batch(texts: Seq<Option<&str>>, langs: Seq<Option<&str>>)
    requires
        texts.len() == langs.len(),
        forall|i: int| 0 <= i < texts.len() ==> (#[trigger] texts[i] matches Some(t) ==> text_fits(t@)),
        forall|i: int| 0 <= i < langs.len() ==> (#[trigger] langs[i] matches Some(l) ==> resolves_to(l@) is Some),
    ensures
        ({
            let rows = gather(
                Seq::new(texts.len(), |i: int| tokenize_lang_row(opt_view(texts[i]), opt_view(langs[i]))),
            );
            &&& rows is Ok
            &&& rows->Ok_0.len() == texts.len()
            &&& forall|i: int|
                0 <= i < texts.len() ==> #[trigger] rows->Ok_0[i] == match (texts[i], langs[i]) {
                    (Some(t), Some(l)) => Some(
                        default_tokens(MAX_TOKEN_BYTES, t@).map_values(
                            |w: Seq<char>| snowball_stem(resolves_to(l@)->0, w),
                        ),
                    ),
                    _ => None,
                }
        }),
{
    let rs = Seq::new(texts.len(), |i: int| tokenize_lang_row(opt_view(texts[i]), opt_view(langs[i])));
    assert forall|i: int| 0 <= i < rs.len() implies #[trigger] rs[i] is Ok by {
        assert(texts[i] matches Some(t) ==> text_fits(t@));
        assert(langs[i] matches Some(l) ==> resolves_to(l@) is Some);
    }
    lemma_gather_all_ok(rs);
    lemma_gather_ok(rs);
    assert forall|i: int| 0 <= i < texts.len() implies #[trigger] gather(rs)->Ok_0[i] == match (texts[i], langs[i]) {
        (Some(t), Some(l)) => Some(
            default_tokens(MAX_TOKEN_BYTES, t@).map_values(
                |w: Seq<char>| snowball_stem(resolves_to(l@)->0, w),
            ),
        ),
        _ => None,
    } by {
        assert(texts[i] matches Some(t) ==> text_fits(t@));
        assert(langs[i] matches Some(l) ==> resolves_to(l@) is Some);
        assert(rs[i] == Ok::<Option<Seq<Seq<char>>>, SearchErrorView>(gather(rs)->Ok_0[i]));
    }
}

/// A `stem(word, lang)` batch whose non-NULL words are within bound and
/// whose non-NULL language ids all resolve succeeds, one result per row: NULL
/// when the row's word or language is NULL, otherwise the default tokens of
/// the row's own word, each Snowball-stemmed for the row's own language and
/// joined by a space.
pub proof fn lemma_stem_batch(words: Seq<Option<&str>>, langs: Seq<Option<&str>>)
    requires
        words.len() == langs.len(),
        forall|i: int| 0 <= i < words.len() ==> (#[trigger] words[i] matches Some(w) ==> text_fits(w@)),
        forall|i: int| 0 <= i < langs.len() ==> (#[trigger] langs[i] matches Some(l) ==> resolves_to(l@) is Some),
    ensures
        ({
            let rows = gather(
                Seq::new(words.len(), |i: int| stem_row(opt_view(words[i]), opt_view(langs[i]))),
            );
            &&& rows is Ok
            &&& rows->Ok_0.len() == words.len()
            &&& forall|i: int|
                0 <= i < words.len() ==> #[trigger] rows->Ok_0[i] == match (words[i], langs[i]) {
                    (Some(w), Some(l)) => Some(
                        join(
                            default_tokens(MAX_TOKEN_BYTES, w@).map_values(
                                |t: Seq<char>| snowball_stem(resolves_to(l@)->0, t),
                            ),
                            " "@,
                        ),
                    ),
                    _ => None,
                }
        }),
{
    let rs = Seq::new(words.len(), |i: int| stem_row(opt_view(words[i]), opt_view(langs[i])));
    assert forall|i: int| 0 <= i < rs.len() implies #[trigger] rs[i] is Ok by {
        assert(words[i] matches Some(w) ==> text_fits(w@));
        assert(langs[i] matches Some(l) ==> resolves_to(l@) is Some);
    }
    lemma_gather_all_ok(rs);
    lemma_gather_ok(rs);
    assert forall|i: int| 0 <= i < words.len() implies #[trigger] gather(rs)->Ok_0[i] == match (words[i], langs[i]) {
        (Some(w), Some(l)) => Some(
            join(
                default_tokens(MAX_TOKEN_BYTES, w@).map_values(
                    |t: Seq<char>| snowball_stem(resolves_to(l@)->0, t),
                ),
                " "@,
            ),
        ),
        _ => None,
    } by {
        assert(words[i] matches Some(w) ==> text_fits(w@));
        assert(langs[i] matches Some(l) ==> resolves_to(l@) is Some);
        assert(rs[i] == Ok::<Option<Seq<char>>, SearchErrorView>(gather(rs)->Ok_0[i]));
    }
}

/// `tokenize(text) -> VARCHAR[]`: the default (non-stemming) tokenizer.
pub struct Tokenize;

impl Tokenize {
    /// The SQL name of the function.
    pub fn name(&self) -> (r: &'static str)
        ensures
            r@ == "tokenize"@,
    {
        "tokenize"
    }

    /// Tokenizes each row; a NULL text gives a NULL list.
    pub fn process(&self, texts: &[Option<&str>]) -> (r: Result<Vec<Option<Vec<String>>>, SearchError>)
        ensures
            token_rows_view(r) == gather(tokenize_rows(arg_views(texts@))),
    {
        let ghost rs = tokenize_rows(arg_views(texts@));
        let mut out: Vec<Option<Vec<String>>> = Vec::new();
        let n = texts.len();
        let mut i: usize = 0;
        proof {
            assert(rs.take(0) =~= Seq::<Result<Option<Seq<Seq<char>>>, SearchErrorView>>::empty());
            assert(token_rows_view(Ok(out))->Ok_0 =~= Seq::<Option<Seq<Seq<char>>>>::empty());
        }
        while i < n
            invariant
                n == texts@.len(),
                i <= n,
                rs == tokenize_rows(arg_views(texts@)),
                gather(rs.take(i as int)) == token_rows_view(Ok(out)),
            decreases n - i,
        {
            let ghost before = token_rows_view(Ok(out))->Ok_0;
            proof {
                assert(rs.take(i + 1).drop_last() =~= rs.take(i as int));
                assert(rs.take(i + 1).last() == rs[i as int]);
            }
            proof {
                assert(rs[i as int] == tokenize_row(opt_view(texts@[i as int])));
            }
            match texts[i] {
                None => {
                    out.push(None);
                    proof {
                        assert(token_rows_view(Ok(out))->Ok_0 =~= before.push(None));
                    }
                },
                Some(t) => match tokenize_default(t) {
                    Err(e) => {
                        proof {
                            lemma_gather_error_persists(rs, i + 1);
                        }
                        return Err(e);
                    },
                    Ok(toks) => {
                        out.push(Some(toks));
                        proof {
                            assert(token_rows_view(Ok(out))->Ok_0 =~= before.push(Some(views(toks@))));
                        }
                    },
                },
            }
            i = i + 1;
        }
        proof {
            assert(rs.take(n as int) =~= rs);
        }
        Ok(out)
    }
}

/// `tokenize(text, lang) -> VARCHAR[]`: the language-stemming tokenizer.
pub struct TokenizeLang;

impl TokenizeLang {
    /// The SQL name of the function (an overload of `tokenize`).
    pub fn name(&self) -> (r: &'static str)
        ensures
            r@ == "tokenize"@,
    {
        "tokenize"
    }

    /// Tokenizes and stems each row; a NULL text or NULL language gives a
    /// NULL list.
    pub fn process(&self, texts: &[Option<&str>], langs: &[Option<&str>]) -> (r: Result<
        Vec<Option<Vec<String>>>,
        SearchError,
    >)
        requires
            texts@.len() == langs@.len(),
        ensures
            token_rows_view(r) == gather(
                Seq::new(
                    texts@.len(),
                    |i: int| tokenize_lang_row(opt_view(texts@[i]), opt_view(langs@[i])),
                ),
            ),
    {
        let ghost rs = Seq::new(
            texts@.len(),
            |i: int| tokenize_lang_row(opt_view(texts@[i]), opt_view(langs@[i])),
        );
        let mut out: Vec<Option<Vec<String>>> = Vec::new();
        let n = texts.len();
        let mut i: usize = 0;
        proof {
            assert(rs.take(0) =~= Seq::<Result<Option<Seq<Seq<char>>>, SearchErrorView>>::empty());
            assert(token_rows_view(Ok(out))->Ok_0 =~= Seq::<Option<Seq<Seq<char>>>>::empty());
        }
        while i < n
            invariant
                n == texts@.len(),
                n == langs@.len(),
                i <= n,
                rs == Seq::new(
                    texts@.len(),
                    |i: int| tokenize_lang_row(opt_view(texts@[i]), opt_view(langs@[i])),
                ),
                gather(rs.take(i as int)) == token_rows_view(Ok(out)),
            decreases n - i,
        {
            let ghost before = token_rows_view(Ok(out))->Ok_0;
            proof {
                assert(rs.take(i + 1).drop_last() =~= rs.take(i as int));
                assert(rs.take(i + 1).last() == rs[i as int]);
            }
            match (texts[i], langs[i]) {
                (Some(t), Some(l)) => match tokenize_lang(t, l) {
                    Err(e) => {
                        proof {
                            lemma_gather_error_persists(rs, i + 1);
                        }
                        return Err(e);
                    },
                    Ok(toks) => {
                        out.push(Some(toks));
                        proof {
                            assert(token_rows_view(Ok(out))->Ok_0 =~= before.push(Some(views(toks@))));
                        }
                    },
                },
                _ => {
                    out.push(None);
                    proof {
                        assert(token_rows_view(Ok(out))->Ok_0 =~= before.push(None));
                    }
                },
            }
            i = i + 1;
        }
        proof {
            assert(rs.take(n as int) =~= rs);
        }
        Ok(out)
    }
}

/// `stem(word, lang) -> VARCHAR`: Snowball-stems a single word.
pub struct Stem;

impl Stem {
    /// The SQL name of the function.
    pub fn name(&self) -> (r: &'static str)
        ensures
            r@ == "stem"@,
    {
        "stem"
    }

    /// Stems each row; a NULL word or NULL language gives NULL.
    pub fn process(&self, words: &[Option<&str>], langs: &[Option<&str>]) -> (r: Result<
        Vec<Option<String>>,
        SearchError,
    >)
        requires
            words@.len() == langs@.len(),
        ensures
            string_rows_view(r) == gather(
                Seq::new(words@.len(), |i: int| stem_row(opt_view(words@[i]), opt_view(langs@[i]))),
            ),
    {
        let ghost rs = Seq::new(
            words@.len(),
            |i: int| stem_row(opt_view(words@[i]), opt_view(langs@[i])),
        );
        let mut out: Vec<Option<String>> = Vec::new();
        let n = words.len();
        let mut i: usize = 0;
        proof {
            assert(rs.take(0) =~= Seq::<Result<Option<Seq<char>>, SearchErrorView>>::empty());
            assert(string_rows_view(Ok(out))->Ok_0 =~= Seq::<Option<Seq<char>>>::empty());
        }
        while i < n
            invariant
                n == words@.len(),
                n == langs@.len(),
                i <= n,
                rs == Seq::new(words@.len(), |i: int| stem_row(opt_view(words@[i]), opt_view(langs@[i]))),
                gather(rs.take(i as int)) == string_rows_view(Ok(out)),
            decreases n - i,
        {
            let ghost before = string_rows_view(Ok(out))->Ok_0;
            proof {
                assert(rs.take(i + 1).drop_last() =~= rs.take(i as int));
                assert(rs.take(i + 1).last() == rs[i as int]);
            }
            match (words[i], langs[i]) {
                (Some(w), Some(l)) => match stem(w, l) {
                    Err(e) => {
                        proof {
                            lemma_gather_error_persists(rs, i + 1);
                        }
                        return Err(e);
                    },
                    Ok(s) => {
                        let ghost sv = s@;
                        out.push(Some(s));
                        proof {
                            assert(string_rows_view(Ok(out))->Ok_0 =~= before.push(Some(sv)));
                        }
                    },
                },
                _ => {
                    out.push(None);
                    proof {
                        assert(string_rows_view(Ok(out))->Ok_0 =~= before.push(None));
                    }
                },
            }
            i = i + 1;
        }
        proof {
            assert(rs.take(n as int) =~= rs);
        }
        Ok(out)
    }
}

/// `bm25_score(doc_text, query) -> DOUBLE`: the ad-hoc BM25 score of a single
/// document against a query, with the English stemmer.
pub struct Bm25Score;

impl Bm25Score {
    /// The SQL name of the function.
    pub fn name(&self) -> (r: &'static str)
        ensures
            r@ == "bm25_score"@,
    {
        "bm25_score"
    }

    /// The stemmer language the scorer analyzes with.
    pub fn language(&self) -> (r: &'static str)
        ensures
            r@ == "english"@,
    {
        "english"
    }

    /// The arguments a row is scored with: both present, or none when the
    /// document or the query is NULL (the row's score is then NULL).
    pub fn row_inputs<'a>(&self, doc: Option<&'a str>, query: Option<&'a str>) -> (r: Option<
        (&'a str, &'a str),
    >)
        ensures
            match (doc, query) {
                (Some(d), Some(q)) => r == Some((d, q)),
                _ => r is None,
            },
    {
        match (doc, query) {
            (Some(d), Some(q)) => Some((d, q)),
            _ => None,
        }
    }
}

/// `tantivy_version() -> VARCHAR`: the engine version string, on every row.
pub struct TantivyVersion;

impl TantivyVersion {
    /// The SQL name of the function.
    pub fn name(&self) -> (r: &'static str)
        ensures
            r@ == "tantivy_version"@,
    {
        "tantivy_version"
    }

    /// One engine version string per input row.
    pub fn process(&self, rows: usize) -> (r: Vec<String>)
        ensures
            r@.len() == rows,
            forall|i: int| 0 <= i < rows ==> #[trigger] r@[i]@ == "tantivy v0.24.2, index_format v7"@,
    {
        let mut out: Vec<String> = Vec::new();
        let mut i: usize = 0;
        while i < rows
            invariant
                i <= rows,
                out@.len() == i,
                forall|j: int| 0 <= j < i ==> #[trigger] out@[j]@ == "tantivy v0.24.2, index_format v7"@,
            decreases rows - i,
        {
            out.push(tantivy_version());
            i = i + 1;
        }
        out
    }
}

} // verus!
