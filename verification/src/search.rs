//! The text-analysis and search surface of the worker: the error type, the
//! input bounds, tokenization and stemming through tantivy's analyzers, and the
//! engine version.

use vstd::prelude::*;

use vstd::string::StringSliceAdditionalSpecFns;
use vstd::utf8::is_ascii_chars;

use tantivy::tokenizer::Language as TvLanguage;
use tantivy::tokenizer::{LowerCaser, RemoveLongFilter, SimpleTokenizer, Stemmer, TextAnalyzer, TokenStream};

use crate::language::{resolve_language, resolves_to, Language};
use crate::text::{
    ascii_lower_char, decimal, decimal_string, join, join_strings, trim, trim_str, views,
};

pub use crate::corpus::{docs_from_json, parse_docs};
pub use crate::language::SUPPORTED_LANGUAGES;

verus! {

/// Upper bound on the number of documents indexed in a single call.
pub const MAX_DOCS: usize = 1_000_000;

/// Tokens of this many bytes or more are dropped by the analyzers.
pub const MAX_TOKEN_BYTES: usize = 40;

/// Upper bound, in bytes, on any single text value (a document body or a
/// query).
pub const MAX_TEXT_BYTES: usize = 16_777_216;

/// Errors from the analysis / search surface.
#[derive(Debug)]
pub enum SearchError {
    /// The language id is not a supported Snowball stemmer language.
    UnknownLanguage(String),
    /// The `docs_json` payload was not a JSON array of strings / {id,text}.
    BadDocsJson(String),
    /// The query string could not be parsed by the query parser.
    BadQuery(String),
    /// Input exceeded a size/count bound.
    TooLarge(String),
    /// An unexpected engine/internal error.
    Internal(String),
}

/// The mathematical value of a [`SearchError`]: its kind and message.
pub enum SearchErrorView {
    UnknownLanguage(Seq<char>),
    BadDocsJson(Seq<char>),
    BadQuery(Seq<char>),
    TooLarge(Seq<char>),
    Internal(Seq<char>),
}

impl View for SearchError {
    type V = SearchErrorView;

    open spec fn view(&self) -> SearchErrorView {
        match self {
            SearchError::UnknownLanguage(m) => SearchErrorView::UnknownLanguage(m@),
            SearchError::BadDocsJson(m) => SearchErrorView::BadDocsJson(m@),
            SearchError::BadQuery(m) => SearchErrorView::BadQuery(m@),
            SearchError::TooLarge(m) => SearchErrorView::TooLarge(m@),
            SearchError::Internal(m) => SearchErrorView::Internal(m@),
        }
    }
}

/// The text a [`SearchError`] is reported with.
pub open spec fn error_message(e: SearchErrorView) -> Seq<char> {
    match e {
        SearchErrorView::UnknownLanguage(l) => "unknown stemmer language '"@ + l
            + "'; see supported_languages()"@,
        SearchErrorView::BadDocsJson(m) => "invalid docs_json: "@ + m,
        SearchErrorView::BadQuery(m) => "invalid query: "@ + m,
        SearchErrorView::TooLarge(m) => "input too large: "@ + m,
        SearchErrorView::Internal(m) => "internal search error: "@ + m,
    }
}

impl SearchError {
    /// The text this error is reported with.
    pub fn message(&self) -> (r: String)
        ensures
            r@ == error_message(self@),
    {
        match self {
            SearchError::UnknownLanguage(l) => {
                let mut m = "unknown stemmer language '".to_owned();
                m.append(l.as_str());
                m.append("'; see supported_languages()");
                m
            },
            SearchError::BadDocsJson(e) => {
                let mut m = "invalid docs_json: ".to_owned();
                m.append(e.as_str());
                m
            },
            SearchError::BadQuery(e) => {
                let mut m = "invalid query: ".to_owned();
                m.append(e.as_str());
                m
            },
            SearchError::TooLarge(e) => {
                let mut m = "input too large: ".to_owned();
                m.append(e.as_str());
                m
            },
            SearchError::Internal(e) => {
                let mut m = "internal search error: ".to_owned();
                m.append(e.as_str());
                m
            },
        }
    }
}

/// One document to index: a caller id and its text body.
#[derive(Debug, Clone)]
pub struct Document {
    pub id: i64,
    pub text: String,
}

/// The mathematical value of a [`Document`].
pub struct DocumentView {
    pub id: i64,
    pub text: Seq<char>,
}

impl View for Document {
    type V = DocumentView;

    open spec fn view(&self) -> DocumentView {
        DocumentView { id: self.id, text: self.text@ }
    }
}

/// The length in bytes of the UTF-8 encoding of a text.
pub open spec fn byte_len(text: Seq<char>) -> nat {
    vstd::utf8::encode_utf8(text).len()
}

/// Whether a text value is within the per-value size bound.
pub open spec fn text_fits(text: Seq<char>) -> bool {
    byte_len(text) <= MAX_TEXT_BYTES
}

/// The message of the error for a text value of `nbytes` bytes that exceeds
/// the bound.
pub open spec fn text_too_large_message(nbytes: nat) -> Seq<char> {
    decimal(nbytes) + " bytes exceeds the limit of "@ + decimal(MAX_TEXT_BYTES as nat)
}

/// Whether `r` is the error for a text value that exceeds the bound.
pub open spec fn is_text_too_large<T>(r: Result<T, SearchError>, text: Seq<char>) -> bool {
    r matches Err(e) && e@ == SearchErrorView::TooLarge(text_too_large_message(byte_len(text)))
}

/// Whether `r` is the error for the unknown language id `lang`.
pub open spec fn is_unknown_language<T>(r: Result<T, SearchError>, lang: Seq<char>) -> bool {
    r matches Err(e) && e@ == SearchErrorView::UnknownLanguage(lang)
}

/// Enforces the per-text-value size bound.
pub fn check_text_len(text: &str) -> (r: Result<(), SearchError>)
    ensures
        text_fits(text@) <==> r is Ok,
        !text_fits(text@) ==> is_text_too_large(r, text@),
{
    let n = text.as_bytes().len();
    if n > MAX_TEXT_BYTES {
        let mut m = decimal_string(n as u64);
        m.append(" bytes exceeds the limit of ");
        let limit = decimal_string(MAX_TEXT_BYTES as u64);
        m.append(limit.as_str());
        return Err(SearchError::TooLarge(m));
    }
    Ok(())
}

/// The tokens that tantivy's default analysis of `text` yields: unicode words
/// (`SimpleTokenizer`), tokens of `max_token_bytes` bytes or more dropped
/// (`RemoveLongFilter::limit`), then lower-cased (`LowerCaser`).
pub uninterp spec fn default_tokens(max_token_bytes: usize, text: Seq<char>) -> Seq<Seq<char>>;

/// The Snowball stem that tantivy's `Stemmer` filter for `lang` gives a token.
pub uninterp spec fn snowball_stem(lang: Language, token: Seq<char>) -> Seq<char>;

/// The tokens of the stemming analysis of `text` for `lang`: the default
/// analysis with each token Snowball-stemmed.
pub open spec fn stemmed_tokens(lang: Language, text: Seq<char>) -> Seq<Seq<char>> {
    default_tokens(MAX_TOKEN_BYTES, text).map_values(|t: Seq<char>| snowball_stem(lang, t))
}

/// Whether `c` is an ASCII lower-case letter or digit.
pub open spec fn is_plain_char(c: char) -> bool {
    ('a' <= c && c <= 'z') || ('0' <= c && c <= '9')
}

/// A token that the default analysis gives back as it is: one character up
/// to under [`MAX_TOKEN_BYTES`], each an ASCII lower-case letter or digit.
pub open spec fn plain_token(t: Seq<char>) -> bool {
    &&& 0 < t.len() < MAX_TOKEN_BYTES
    &&& forall|i: int| 0 <= i < t.len() ==> #[trigger] is_plain_char(t[i])
}

/// Whether `c` is an ASCII letter or digit, a character the default
/// tokenizer keeps inside a word.
pub open spec fn is_ascii_word_char(c: char) -> bool {
    ('a' <= c && c <= 'z') || ('A' <= c && c <= 'Z') || ('0' <= c && c <= '9')
}

/// The word `run` as the default analysis gives it out: kept when it has at
/// least one character and fewer than `limit`, dropped otherwise.
pub open spec fn finish_word(limit: nat, run: Seq<char>) -> Seq<Seq<char>> {
    if 0 < run.len() < limit {
        seq![run]
    } else {
        Seq::empty()
    }
}

/// The words of `s` when a word `run` (already lower-cased) is under way:
/// each maximal run of ASCII letters and digits, lower-cased, in order, with
/// runs of `limit` characters or more dropped.
pub open spec fn words_after(limit: nat, s: Seq<char>, run: Seq<char>) -> Seq<Seq<char>>
    decreases s.len(),
{
    if s.len() == 0 {
        finish_word(limit, run)
    } else if is_ascii_word_char(s[0]) {
        words_after(limit, s.drop_first(), run.push(ascii_lower_char(s[0])))
    } else {
        finish_word(limit, run) + words_after(limit, s.drop_first(), Seq::empty())
    }
}

/// The default analysis of an ASCII text: its maximal runs of ASCII letters
/// and digits, lower-cased, in order, those of `limit` bytes or more dropped.
pub open spec fn ascii_words(limit: nat, s: Seq<char>) -> Seq<Seq<char>> {
    words_after(limit, s, Seq::empty())
}

/// A plain token is ASCII.
proof fn lemma_plain_token_ascii(t: Seq<char>)
    requires
        plain_token(t),
    ensures
        is_ascii_chars(t),
{
    assert forall|i: int| 0 <= i < t.len() implies '\0' <= #[trigger] t[i] <= '\u{7f}' by {
        assert(is_plain_char(t[i]));
    }
}

/// A plain token is within the size bound.
proof fn lemma_plain_token_fits(t: Seq<char>)
    requires
        plain_token(t),
    ensures
        text_fits(t),
{
    lemma_plain_token_ascii(t);
    vstd::utf8::is_ascii_chars_encode_utf8(t);
}

proof fn lemma_words_after_plain(s: Seq<char>, run: Seq<char>)
    requires
        forall|i: int| 0 <= i < run.len() ==> #[trigger] is_plain_char(run[i]),
    ensures
        forall|i: int|
            0 <= i < words_after(MAX_TOKEN_BYTES as nat, s, run).len() ==> plain_token(#[trigger] words_after(MAX_TOKEN_BYTES as nat, s, run)[i]),
    decreases s.len(),
{
    if 0 < run.len() < MAX_TOKEN_BYTES {
        assert(finish_word(MAX_TOKEN_BYTES as nat, run) =~= seq![run]);
        assert(plain_token(run));
    } else {
        assert(finish_word(MAX_TOKEN_BYTES as nat, run) =~= Seq::<Seq<char>>::empty());
    }
    if s.len() == 0 {
        assert(words_after(MAX_TOKEN_BYTES as nat, s, run) == finish_word(MAX_TOKEN_BYTES as nat, run));
    } else if is_ascii_word_char(s[0]) {
        let r2 = run.push(ascii_lower_char(s[0]));
        assert forall|i: int| 0 <= i < r2.len() implies #[trigger] is_plain_char(r2[i]) by {
            if i == run.len() {
                let c = s[0];
                if 'A' <= c && c <= 'Z' {
                    assert((c as u32) + 32 <= 'z' as u32);
                }
            }
        }
        lemma_words_after_plain(s.drop_first(), r2);
        assert(words_after(MAX_TOKEN_BYTES as nat, s, run) == words_after(MAX_TOKEN_BYTES as nat, s.drop_first(), r2));
    } else {
        lemma_words_after_plain(s.drop_first(), Seq::empty());
        let f = finish_word(MAX_TOKEN_BYTES as nat, run);
        let w = words_after(MAX_TOKEN_BYTES as nat, s.drop_first(), Seq::empty());
        assert forall|i: int| 0 <= i < (f + w).len() implies plain_token(#[trigger] (f + w)[i]) by {
            if i >= f.len() {
                assert((f + w)[i] == w[i - f.len()]);
            } else {
                assert((f + w)[i] == f[i]);
            }
        }
        assert(words_after(MAX_TOKEN_BYTES as nat, s, run) == f + w);
    }
}

proof fn lemma_words_after_plain_rest(s: Seq<char>, run: Seq<char>)
    requires
        forall|i: int| 0 <= i < s.len() ==> #[trigger] is_plain_char(s[i]),
    ensures
        words_after(MAX_TOKEN_BYTES as nat, s, run) == finish_word(MAX_TOKEN_BYTES as nat, run + s),
    decreases s.len(),
{
    if s.len() > 0 {
        let c = s[0];
        assert(is_plain_char(c));
        assert(ascii_lower_char(c) == c);
        let t = s.drop_first();
        assert forall|i: int| 0 <= i < t.len() implies #[trigger] is_plain_char(t[i]) by {
            assert(is_plain_char(s[i + 1]));
        }
        lemma_words_after_plain_rest(t, run.push(c));
        assert(run.push(c) + t =~= run + s);
    } else {
        assert(run + s =~= run);
    }
}

/// Every word of a text's ASCII analysis is a plain token.
pub proof fn lemma_ascii_words_are_plain(s: Seq<char>)
    ensures
        forall|i: int| 0 <= i < ascii_words(MAX_TOKEN_BYTES as nat, s).len() ==> plain_token(#[trigger] ascii_words(MAX_TOKEN_BYTES as nat, s)[i]),
{
    lemma_words_after_plain(s, Seq::empty());
}

/// A plain token is a single word of itself, unchanged.
pub proof fn lemma_plain_token_is_one_word(t: Seq<char>)
    requires
        plain_token(t),
    ensures
        ascii_words(MAX_TOKEN_BYTES as nat, t) == seq![t],
{
    lemma_words_after_plain_rest(t, Seq::empty());
    assert(Seq::<char>::empty() + t =~= t);
}

#[verifier::external_type_specification]
#[verifier::external_body]
pub struct ExTextAnalyzer(TextAnalyzer);

#[verifier::external_type_specification]
#[verifier::external_body]
pub struct ExTvLanguage(TvLanguage);

/// tantivy's stemmer language for `lang`, variant for variant.
#[verifier::external_body]
fn tv_language(lang: Language) -> TvLanguage {
    match lang {
        Language::Arabic => TvLanguage::Arabic, Language::Danish => TvLanguage::Danish,
        Language::Dutch => TvLanguage::Dutch, Language::English => TvLanguage::English,
        Language::Finnish => TvLanguage::Finnish, Language::French => TvLanguage::French,
        Language::German => TvLanguage::German, Language::Greek => TvLanguage::Greek,
        Language::Hungarian => TvLanguage::Hungarian, Language::Italian => TvLanguage::Italian,
        Language::Norwegian => TvLanguage::Norwegian,
        Language::Portuguese => TvLanguage::Portuguese,
        Language::Romanian => TvLanguage::Romanian, Language::Russian => TvLanguage::Russian,
        Language::Spanish => TvLanguage::Spanish, Language::Swedish => TvLanguage::Swedish,
        Language::Tamil => TvLanguage::Tamil, Language::Turkish => TvLanguage::Turkish,
    }
}

/// tantivy's `TextAnalyzer` built from `SimpleTokenizer`,
/// `RemoveLongFilter::limit(max_token_bytes)`, `LowerCaser` and
/// `Stemmer::new` for `lang`, in that order. The analyzer is opaque; the
/// contracts of its users state what it yields.
#[verifier::external_body]
pub(crate) fn stem_analyzer(lang: Language, max_token_bytes: usize) -> TextAnalyzer {
    TextAnalyzer::builder(SimpleTokenizer::default()).filter(
        RemoveLongFilter::limit(max_token_bytes),
    ).filter(LowerCaser).filter(Stemmer::new(tv_language(lang))).build()
}

/// Runs tantivy's `TextAnalyzer` built from `SimpleTokenizer`,
/// `RemoveLongFilter::limit(max_token_bytes)` and `LowerCaser` over `text`
/// and collects the token texts. The contract names the result
/// `default_tokens`, and for an ASCII text states it as the three stages'
/// sources show it: the tokenizer cuts the text at every character that is
/// not alphanumeric (for ASCII: a letter or a digit), the filter drops tokens
/// of `max_token_bytes` bytes or more (for ASCII: characters), and the
/// lower-caser ASCII-lower-cases what is left.
#[verifier::external_body]
fn run_default_analyzer(max_token_bytes: usize, text: &str) -> (toks: Vec<String>)
    ensures
        views(toks@) == default_tokens(max_token_bytes, text@),
        is_ascii_chars(text@) ==> views(toks@) == ascii_words(max_token_bytes as nat, text@),
{
    let mut analyzer = TextAnalyzer::builder(SimpleTokenizer::default()).filter(
        RemoveLongFilter::limit(max_token_bytes),
    ).filter(LowerCaser).build();
    let mut stream = analyzer.token_stream(text);
    let mut toks = Vec::new();
    while stream.advance() {
        toks.push(stream.token().text.clone());
    }
    toks
}

/// Runs the analyzer of [`stem_analyzer`] over `text` and collects the token
/// texts. The `Stemmer` filter rewrites each token's text in place and drops
/// none, so the contract states the result as the default tokens, each mapped
/// by `snowball_stem`, and for an ASCII text as its ASCII words, each mapped
/// by `snowball_stem`.
#[verifier::external_body]
fn run_stem_analyzer(lang: Language, max_token_bytes: usize, text: &str) -> (toks: Vec<String>)
    ensures
        views(toks@) == default_tokens(max_token_bytes, text@).map_values(
            |t: Seq<char>| snowball_stem(lang, t),
        ),
        is_ascii_chars(text@) ==> views(toks@) == ascii_words(max_token_bytes as nat, text@).map_values(
            |t: Seq<char>| snowball_stem(lang, t),
        ),
{
    let mut analyzer = stem_analyzer(lang, max_token_bytes);
    let mut stream = analyzer.token_stream(text);
    let mut toks = Vec::new();
    while stream.advance() {
        toks.push(stream.token().text.clone());
    }
    toks
}

/// What tokenizing `text` with the default analyzer gives: its tokens, or
/// the error for a text over the size bound.
pub open spec fn default_tokenization(text: Seq<char>) -> Result<Seq<Seq<char>>, SearchErrorView> {
    if text_fits(text) {
        Ok(default_tokens(MAX_TOKEN_BYTES, text))
    } else {
        Err(SearchErrorView::TooLarge(text_too_large_message(byte_len(text))))
    }
}

/// What tokenizing `text` with the stemming analyzer for the language id
/// `lang` gives: the size bound is checked first, then the language.
pub open spec fn lang_tokenization(text: Seq<char>, lang: Seq<char>) -> Result<
    Seq<Seq<char>>,
    SearchErrorView,
> {
    if !text_fits(text) {
        Err(SearchErrorView::TooLarge(text_too_large_message(byte_len(text))))
    } else {
        match resolves_to(lang) {
            None => Err(SearchErrorView::UnknownLanguage(lang)),
            Some(l) => Ok(stemmed_tokens(l, text)),
        }
    }
}

/// What stemming `word` for the language id `lang` gives: its stemmed tokens
/// joined by a space.
pub open spec fn word_stemming(word: Seq<char>, lang: Seq<char>) -> Result<Seq<char>, SearchErrorView> {
    match lang_tokenization(word, lang) {
        Err(e) => Err(e),
        Ok(toks) => Ok(join(toks, " "@)),
    }
}

/// The mathematical value of a tokenization result.
pub open spec fn tokens_result_view(r: Result<Vec<String>, SearchError>) -> Result<
    Seq<Seq<char>>,
    SearchErrorView,
> {
    match r {
        Ok(toks) => Ok(views(toks@)),
        Err(e) => Err(e@),
    }
}

/// The mathematical value of a string result.
pub open spec fn string_result_view(r: Result<String, SearchError>) -> Result<Seq<char>, SearchErrorView> {
    match r {
        Ok(s) => Ok(s@),
        Err(e) => Err(e@),
    }
}

/// Tokenizes `text` with the default (non-stemming) analyzer: unicode word
/// splitting and lower-casing. Empty text gives no token.
pub fn tokenize_default(text: &str) -> (r: Result<Vec<String>, SearchError>)
    ensures
        tokens_result_view(r) == default_tokenization(text@),
        is_ascii_chars(text@) && text_fits(text@) ==> (r matches Ok(toks) && views(toks@)
            == ascii_words(MAX_TOKEN_BYTES as nat, text@)),
        text@.len() == 0 ==> (r matches Ok(toks) && toks@.len() == 0),
        is_ascii_chars(text@) ==> (r matches Ok(toks) ==> forall|i: int|
            0 <= i < toks@.len() ==> plain_token(#[trigger] toks@[i]@)),
{
    proof {
        if text@.len() == 0 {
            assert(is_ascii_chars(text@));
            assert(text_fits(text@)) by {
                vstd::utf8::is_ascii_chars_encode_utf8(text@);
            }
        }
    }
    check_text_len(text)?;
    let toks = run_default_analyzer(MAX_TOKEN_BYTES, text);
    proof {
        if text@.len() == 0 {
            assert(ascii_words(MAX_TOKEN_BYTES as nat, text@).len() == 0);
            assert(views(toks@).len() == toks@.len());
        }
        if is_ascii_chars(text@) {
            lemma_ascii_words_are_plain(text@);
            assert forall|i: int| 0 <= i < toks@.len() implies plain_token(#[trigger] toks@[i]@) by {
                assert(views(toks@)[i] == toks@[i]@);
            }
        }
    }
    Ok(toks)
}

/// Tokenizes `text` with the stemming analyzer for `lang`: the default
/// analysis, each token Snowball-stemmed. An unknown language is an error.
pub fn tokenize_lang(text: &str, lang: &str) -> (r: Result<Vec<String>, SearchError>)
    ensures
        tokens_result_view(r) == lang_tokenization(text@, lang@),
        is_ascii_chars(text@) && text_fits(text@) && resolves_to(lang@) is Some ==> (r matches Ok(
            toks,
        ) && views(toks@) == ascii_words(MAX_TOKEN_BYTES as nat, text@).map_values(
            |t: Seq<char>| snowball_stem(resolves_to(lang@)->0, t),
        )),
{
    check_text_len(text)?;
    let l = resolve_language(lang)?;
    Ok(run_stem_analyzer(l, MAX_TOKEN_BYTES, text))
}

/// Snowball-stems a single `word` for `lang`: the word is analyzed as text,
/// and the stemmed tokens joined by a space. E.g. `stem("running", "english")`
/// is `"run"`. An empty word gives the empty string; an unknown language is an
/// error.
pub fn stem(word: &str, lang: &str) -> (r: Result<String, SearchError>)
    ensures
        string_result_view(r) == word_stemming(word@, lang@),
        word@.len() == 0 && resolves_to(lang@) is Some ==> (r matches Ok(s) && s@.len() == 0),
        plain_token(word@) && resolves_to(lang@) is Some ==> (r matches Ok(s) && s@
            == snowball_stem(resolves_to(lang@)->0, word@)),
{
    proof {
        if word@.len() == 0 {
            assert(is_ascii_chars(word@));
            vstd::utf8::is_ascii_chars_encode_utf8(word@);
        }
        if plain_token(word@) {
            lemma_plain_token_fits(word@);
            lemma_plain_token_ascii(word@);
            lemma_plain_token_is_one_word(word@);
        }
    }
    check_text_len(word)?;
    let l = resolve_language(lang)?;
    let toks = run_stem_analyzer(l, MAX_TOKEN_BYTES, word);
    proof {
        if word@.len() == 0 {
            assert(ascii_words(MAX_TOKEN_BYTES as nat, word@).len() == 0);
            assert(views(toks@).len() == 0);
        }
        if plain_token(word@) {
            let v = views(toks@);
            assert(v.len() == 1);
            assert(join(v, " "@) == v[0]);
        }
    }
    Ok(join_strings(&toks, " "))
}

/// What a BM25 search comes to before any index is built: no hit at all, or
/// a ranking to run with the resolved language.
#[derive(Debug, PartialEq, Eq, Structural)]
pub enum SearchPlan {
    NoHits,
    Run(Language),
}

/// The plan of a BM25 search over `n_docs` documents: the query's size bound
/// is checked first, then the language; an empty corpus or a blank query has
/// no hit.
pub open spec fn search_plan(n_docs: nat, query: Seq<char>, lang: Seq<char>) -> Result<
    SearchPlan,
    SearchErrorView,
> {
    if !text_fits(query) {
        Err(SearchErrorView::TooLarge(text_too_large_message(byte_len(query))))
    } else {
        match resolves_to(lang) {
            None => Err(SearchErrorView::UnknownLanguage(lang)),
            Some(l) => if n_docs == 0 || trim(query).len() == 0 {
                Ok(SearchPlan::NoHits)
            } else {
                Ok(SearchPlan::Run(l))
            },
        }
    }
}

/// The mathematical value of a plan result.
pub open spec fn plan_result_view(r: Result<SearchPlan, SearchError>) -> Result<SearchPlan, SearchErrorView> {
    match r {
        Ok(p) => Ok(p),
        Err(e) => Err(e@),
    }
}

/// Decides how a BM25 search of `docs` for `query` in `lang` proceeds, before
/// any index is built: an oversized query or an unknown language is an error,
/// an empty corpus or a blank query yields no hit, anything else is ranked.
pub fn bm25_search_plan(docs: &[Document], query: &str, lang: &str) -> (r: Result<SearchPlan, SearchError>)
    ensures
        plan_result_view(r) == search_plan(docs@.len(), query@, lang@),
{
    check_text_len(query)?;
    let l = resolve_language(lang)?;
    if docs.len() == 0 || trim_str(query).is_empty() {
        Ok(SearchPlan::NoHits)
    } else {
        Ok(SearchPlan::Run(l))
    }
}

/// `tokenize(text, lang)` does what `tokenize(text)` does and additionally
/// Snowball-stems each token: whenever the text is within bound and the
/// language resolves, both succeed with as many tokens, the stemmed one at
/// each position being the stem of the default one.
pub proof fn lemma_stemming_refines_default(text: Seq<char>, lang: Seq<char>)
    requires
        text_fits(text),
        resolves_to(lang) is Some,
    ensures
        lang_tokenization(text, lang) is Ok,
        default_tokenization(text) is Ok,
        lang_tokenization(text, lang)->Ok_0.len() == default_tokenization(text)->Ok_0.len(),
        forall|i: int|
            0 <= i < default_tokenization(text)->Ok_0.len() ==> #[trigger] lang_tokenization(
                text,
                lang,
            )->Ok_0[i] == snowball_stem(
                resolves_to(lang)->0,
                default_tokenization(text)->Ok_0[i],
            ),
{
}

/// `stem(word, lang)` is `tokenize(word, lang)` with the tokens joined by a
/// space, failing exactly when it fails.
pub proof fn lemma_stem_joins_tokens(word: Seq<char>, lang: Seq<char>)
    ensures
        word_stemming(word, lang) is Ok <==> lang_tokenization(word, lang) is Ok,
        lang_tokenization(word, lang) is Ok ==> word_stemming(word, lang)->Ok_0 == join(
            lang_tokenization(word, lang)->Ok_0,
            " "@,
        ),
{
}

/// An unknown language is an error for every analysis of a text within
/// bound, and the error names the language id as given.
pub proof fn lemma_unknown_language_is_error(text: Seq<char>, lang: Seq<char>)
    requires
        text_fits(text),
        resolves_to(lang) is None,
    ensures
        lang_tokenization(text, lang) == Err::<Seq<Seq<char>>, SearchErrorView>(
            SearchErrorView::UnknownLanguage(lang),
        ),
        word_stemming(text, lang) == Err::<Seq<char>, SearchErrorView>(
            SearchErrorView::UnknownLanguage(lang),
        ),
        search_plan(1, text, lang) == Err::<SearchPlan, SearchErrorView>(
            SearchErrorView::UnknownLanguage(lang),
        ),
{
}

/// An empty corpus or a blank query has no hit, whatever the language
/// resolves to; a non-empty corpus and a non-blank query are ranked.
pub proof fn lemma_empty_search_has_no_hits(n_docs: nat, query: Seq<char>, lang: Seq<char>)
    requires
        text_fits(query),
        resolves_to(lang) is Some,
    ensures
        (n_docs == 0 || trim(query).len() == 0) ==> search_plan(n_docs, query, lang) == Ok::<
            SearchPlan,
            SearchErrorView,
        >(SearchPlan::NoHits),
        (n_docs > 0 && trim(query).len() > 0) ==> search_plan(n_docs, query, lang) == Ok::<
            SearchPlan,
            SearchErrorView,
        >(SearchPlan::Run(resolves_to(lang)->0)),
{
}

/// The tantivy engine version string, `tantivy::version_string()`; its
/// source formats the crate version and the index format version.
#[verifier::external_body]
pub fn tantivy_version() -> (r: String)
    ensures
        r@ == "tantivy v0.24.2, index_format v7"@,
{
    tantivy::version_string().to_string()
}

} // verus!
