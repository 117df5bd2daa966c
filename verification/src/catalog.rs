//! The discovery metadata the worker publishes: the tags of each function and
//! table, and those of the catalog and its single schema.

use vstd::prelude::*;

use crate::meta::{
    example_queries_tag, json_example_array, json_string_array, keywords_json, object_tag_views,
    object_tags, tag_views,
};
use crate::scalar::{Bm25Score, Stem, TantivyVersion, Tokenize, TokenizeLang};
use crate::search::tantivy_version;
use crate::table::SupportedLanguages;
use crate::{version, worker_version};

verus! {

/// The texts of a list of string literals.
pub open spec fn str_views(a: Seq<&str>) -> Seq<Seq<char>> {
    a.map_values(|s: &str| s@)
}

/// The texts of a list of `(description, sql)` examples.
pub open spec fn example_views(a: Seq<(&str, &str)>) -> Seq<(Seq<char>, Seq<char>)> {
    a.map_values(|e: (&str, &str)| (e.0@, e.1@))
}

/// The display title of the `tokenize` object (both overloads).
pub const TOKENIZE_TITLE: &'static str = "Tokenize Text";

/// The agent-facing narrative of the `tokenize` object.
pub const TOKENIZE_DOC_LLM: &'static str =
    "Split text into normalized word tokens, returned as a `VARCHAR` array. \
     Two forms: `tokenize(text)` applies the default analyzer only — unicode word segmentation, \
     lowercasing, and dropping of overly long tokens, with NO stemming (e.g. 'Running quickly, \
     CATS!' → ['running','quickly','cats']); `tokenize(text, lang)` does the same and additionally \
     Snowball-stems each token for the given language, collapsing word variants to a shared root \
     (e.g. 'Running quickly' with 'english' → ['run','quick']). NULL text (or NULL language in \
     the 2-arg form) → NULL; an unknown language is a clear error.";

/// The human-facing narrative of the `tokenize` object.
pub const TOKENIZE_DOC_MD: &'static str =
    "Tokenize text into a `VARCHAR` array of normalized terms. The 1-arg \
     form `tokenize(text)` only tokenizes and lowercases (no stemmer), e.g. \
     `tokenize('Running quickly, CATS!')` → `['running','quickly','cats']`. The 2-arg form \
     `tokenize(text, lang)` additionally Snowball-stems each token, e.g. \
     `tokenize('Running quickly', 'english')` → `['run','quick']`.";

/// Self-contained runnable examples for both `tokenize` overloads.
pub const TOKENIZE_EXECUTABLE_EXAMPLES: &'static str = r#"[
  {
    "description": "Tokenize text into lowercased word tokens (1-arg form, no stemming).",
    "sql": "SELECT tantivy.main.tokenize('Running quickly, CATS!') AS tokens"
  },
  {
    "description": "Tokenize and Snowball-stem text for a language (2-arg form).",
    "sql": "SELECT tantivy.main.tokenize('Running quickly', 'english') AS tokens"
  }
]"#;

/// The described example queries of the `tokenize` object.
pub const TOKENIZE_EXAMPLE_QUERIES: [(&'static str, &'static str); 2] = [
    (
        "Tokenize text into lowercased word tokens (1-arg form, no stemming).",
        "SELECT tantivy.main.tokenize('Running quickly, CATS!') AS tokens",
    ),
    (
        "Tokenize and Snowball-stem text for a language (2-arg form).",
        "SELECT tantivy.main.tokenize('Running quickly', 'english') AS tokens",
    ),
];

/// The search keywords of the `tokenize` object.
pub const TOKENIZE_KEYWORDS: [&'static str; 12] = [
    "tokenize",
    "tokenization",
    "tokens",
    "split words",
    "word segmentation",
    "lowercase",
    "stemming tokenizer",
    "snowball",
    "analyzer",
    "multilingual",
    "text analysis",
    "terms",
];

/// The tags both `tokenize` overloads publish.
pub open spec fn tokenize_tag_views() -> Seq<(Seq<char>, Seq<char>)> {
    object_tag_views(
        TOKENIZE_TITLE@,
        TOKENIZE_DOC_LLM@,
        TOKENIZE_DOC_MD@,
        str_views(TOKENIZE_KEYWORDS@),
        "Text Analysis"@,
    ) + seq![
        ("vgi.executable_examples"@, TOKENIZE_EXECUTABLE_EXAMPLES@),
        ("vgi.example_queries"@, json_example_array(example_views(TOKENIZE_EXAMPLE_QUERIES@))),
    ]
}

fn tokenize_tags() -> (r: Vec<(String, String)>)
    ensures
        tag_views(r@) == tokenize_tag_views(),
{
    let mut tags = object_tags(
        TOKENIZE_TITLE,
        TOKENIZE_DOC_LLM,
        TOKENIZE_DOC_MD,
        TOKENIZE_KEYWORDS.as_slice(),
        "Text Analysis",
    );
    let ghost base = tag_views(tags@);
    tags.push(("vgi.executable_examples".to_owned(), TOKENIZE_EXECUTABLE_EXAMPLES.to_owned()));
    tags.push(example_queries_tag(TOKENIZE_EXAMPLE_QUERIES.as_slice()));
    assert(tag_views(tags@) =~= tokenize_tag_views());
    tags
}

impl Tokenize {
    /// The discovery tags of the function.
    pub fn tags(&self) -> (r: Vec<(String, String)>)
        ensures
            tag_views(r@) == tokenize_tag_views(),
    {
        tokenize_tags()
    }
}

impl TokenizeLang {
    /// The discovery tags of the function: the same as the 1-arg overload's,
    /// so the merged `tokenize` object is consistent.
    pub fn tags(&self) -> (r: Vec<(String, String)>)
        ensures
            tag_views(r@) == tokenize_tag_views(),
    {
        tokenize_tags()
    }
}

/// The described example query of `stem`.
pub const STEM_EXAMPLE_QUERIES: [(&'static str, &'static str); 1] = [
    (
        "Snowball-stem a single English word to its root.",
        "SELECT tantivy.main.stem('running', 'english') AS root",
    ),
];

/// The agent-facing narrative of `stem`.
pub const STEM_DOC_LLM: &'static str =
    "Reduce a single word to its Snowball stem (root) for the given language, e.g. \
     'running' → 'run' in English. Useful for normalizing terms before matching or \
     grouping. NULL word or language → NULL; an unknown language is a clear error.";

/// The human-facing narrative of `stem`.
pub const STEM_DOC_MD: &'static str =
    "Snowball-stem one word to its root for a language, e.g. \
     `stem('running', 'english')` → `run`.";

/// The search keywords of `stem`.
pub const STEM_KEYWORDS: [&'static str; 9] = [
    "stem",
    "stemming",
    "snowball",
    "root word",
    "lemmatize",
    "normalize term",
    "word root",
    "morphology",
    "language",
];

/// Self-contained runnable example of `stem`.
pub const STEM_EXECUTABLE_EXAMPLES: &'static str = r#"[
  {
    "description": "Snowball-stem a single English word to its root.",
    "sql": "SELECT tantivy.main.stem('running', 'english') AS root"
  }
]"#;

/// The tags `stem` publishes.
pub open spec fn stem_tag_views() -> Seq<(Seq<char>, Seq<char>)> {
    object_tag_views(
        "Stem Single Word"@,
        STEM_DOC_LLM@,
        STEM_DOC_MD@,
        str_views(STEM_KEYWORDS@),
        "Text Analysis"@,
    ) + seq![
        ("vgi.executable_examples"@, STEM_EXECUTABLE_EXAMPLES@),
        ("vgi.example_queries"@, json_example_array(example_views(STEM_EXAMPLE_QUERIES@))),
    ]
}

impl Stem {
    /// The discovery tags of the function.
    pub fn tags(&self) -> (r: Vec<(String, String)>)
        ensures
            tag_views(r@) == stem_tag_views(),
    {
        let mut tags = object_tags(
            "Stem Single Word",
            STEM_DOC_LLM,
            STEM_DOC_MD,
            STEM_KEYWORDS.as_slice(),
            "Text Analysis",
        );
        tags.push(("vgi.executable_examples".to_owned(), STEM_EXECUTABLE_EXAMPLES.to_owned()));
        tags.push(example_queries_tag(STEM_EXAMPLE_QUERIES.as_slice()));
        assert(tag_views(tags@) =~= stem_tag_views());
        tags
    }
}

/// The agent-facing narrative of `bm25_score`.
pub const BM25_SCORE_DOC_LLM: &'static str =
    "Compute an ad-hoc BM25 relevance score for one document against a query string, \
     using the English stemmer and a throwaway 1-document index. Returns 0.0 when the \
     document does not match the query. Because BM25 statistics depend on the whole \
     corpus, scores are NOT comparable across rows — use bm25_search to rank a real \
     corpus. NULL document or query → NULL.";

/// The human-facing narrative of `bm25_score`.
pub const BM25_SCORE_DOC_MD: &'static str =
    "Ad-hoc BM25 score of a single document against a query, e.g. \
     `bm25_score('the cat sat on the mat', 'cat')` (> 0.0 on match, 0.0 otherwise).";

/// The search keywords of `bm25_score`.
pub const BM25_SCORE_KEYWORDS: [&'static str; 9] = [
    "bm25",
    "bm25 score",
    "relevance score",
    "single document",
    "ad-hoc score",
    "full-text match",
    "scoring",
    "ranking probe",
    "query match",
];

/// The tags `bm25_score` publishes.
pub open spec fn bm25_score_tag_views() -> Seq<(Seq<char>, Seq<char>)> {
    object_tag_views(
        "BM25 Single-Document Score"@,
        BM25_SCORE_DOC_LLM@,
        BM25_SCORE_DOC_MD@,
        str_views(BM25_SCORE_KEYWORDS@),
        "Search & Ranking"@,
    )
}

impl Bm25Score {
    /// The discovery tags of the function.
    pub fn tags(&self) -> (r: Vec<(String, String)>)
        ensures
            tag_views(r@) == bm25_score_tag_views(),
    {
        object_tags(
            "BM25 Single-Document Score",
            BM25_SCORE_DOC_LLM,
            BM25_SCORE_DOC_MD,
            BM25_SCORE_KEYWORDS.as_slice(),
            "Search & Ranking",
        )
    }
}

/// The agent-facing narrative of `tantivy_version`.
pub const TANTIVY_VERSION_DOC_LLM: &'static str =
    "Return the version string of the underlying tantivy full-text search engine and \
     its on-disk index format, e.g. 'tantivy v0.24.2, index_format v7'. Use it to \
     confirm which search-engine version backs this worker.";

/// The human-facing narrative of `tantivy_version`.
pub const TANTIVY_VERSION_DOC_MD: &'static str =
    "Return the tantivy engine version and index-format string, e.g. \
     `tantivy v0.24.2, index_format v7`.";

/// The search keywords of `tantivy_version`.
pub const TANTIVY_VERSION_KEYWORDS: [&'static str; 7] = [
    "tantivy version",
    "engine version",
    "index format",
    "build info",
    "version string",
    "about",
    "diagnostics",
];

/// The tags `tantivy_version` publishes.
pub open spec fn tantivy_version_tag_views() -> Seq<(Seq<char>, Seq<char>)> {
    object_tag_views(
        "Tantivy Engine Version"@,
        TANTIVY_VERSION_DOC_LLM@,
        TANTIVY_VERSION_DOC_MD@,
        str_views(TANTIVY_VERSION_KEYWORDS@),
        "Discovery"@,
    )
}

impl TantivyVersion {
    /// The discovery tags of the function.
    pub fn tags(&self) -> (r: Vec<(String, String)>)
        ensures
            tag_views(r@) == tantivy_version_tag_views(),
    {
        object_tags(
            "Tantivy Engine Version",
            TANTIVY_VERSION_DOC_LLM,
            TANTIVY_VERSION_DOC_MD,
            TANTIVY_VERSION_KEYWORDS.as_slice(),
            "Discovery",
        )
    }
}

/// The search keywords of `supported_languages`.
pub const SUPPORTED_LANGUAGES_KEYWORDS: [&'static str; 8] = [
    "supported languages",
    "stemmer languages",
    "snowball languages",
    "available languages",
    "language list",
    "discovery",
    "tokenize languages",
    "stem languages",
];

/// The agent-facing narrative of the `supported_languages` function.
pub const SUPPORTED_LANGUAGES_DOC_LLM: &'static str =
    "List the Snowball stemmer language ids this worker supports. These are the \
     valid `lang` values for tokenize(text, lang), stem(word, lang), and the \
     internal search analyzer. Use it to discover which languages are available.";

/// The human-facing narrative of the `supported_languages` function.
pub const SUPPORTED_LANGUAGES_DOC_MD: &'static str =
    "List the supported Snowball stemmer language ids, usable with `tokenize`, \
     `stem`, and the search analyzer. Column: `lang`.";

/// The Markdown table documenting the columns `supported_languages` returns.
pub const SUPPORTED_LANGUAGES_COLUMNS_MD: &'static str =
    "| column | type | description |\n\
     |---|---|---|\n\
     | `lang` | VARCHAR | A supported Snowball stemmer language id, e.g. `english`, \
     `french`, `german`. |";

/// The tags the `supported_languages` function publishes.
pub open spec fn supported_languages_tag_views() -> Seq<(Seq<char>, Seq<char>)> {
    object_tag_views(
        "Supported Stemmer Languages"@,
        SUPPORTED_LANGUAGES_DOC_LLM@,
        SUPPORTED_LANGUAGES_DOC_MD@,
        str_views(SUPPORTED_LANGUAGES_KEYWORDS@),
        "Discovery"@,
    ) + seq![("vgi.result_columns_md"@, SUPPORTED_LANGUAGES_COLUMNS_MD@)]
}

/// The agent-facing narrative of the `supported_languages` catalog table.
pub const LANGUAGES_TABLE_DOC_LLM: &'static str =
    "The discovery table of every Snowball stemmer language id this worker supports. \
     One row per language; the single `lang` column is the valid value to pass as the \
     `lang` argument of tokenize(text, lang) and stem(word, lang). Query it to find out \
     which languages are available before stemming or tokenizing.";

/// The human-facing narrative of the `supported_languages` catalog table.
pub const LANGUAGES_TABLE_DOC_MD: &'static str =
    "# supported_languages\n\nThe discovery table listing every Snowball stemmer language \
     id the worker supports. One row per language, with a single column `lang` (e.g. \
     `english`, `french`, `german`). These are exactly the valid `lang` values for \
     `tokenize(text, lang)`, `stem(word, lang)`, and the internal search analyzer. Use it \
     to enumerate the available languages.";

/// The described example queries of the `supported_languages` catalog table.
pub const LANGUAGES_TABLE_EXAMPLE_QUERIES: &'static str = r#"[
  {
    "description": "List the first few supported Snowball stemmer languages.",
    "sql": "SELECT lang FROM tantivy.main.supported_languages ORDER BY lang LIMIT 5"
  },
  {
    "description": "Check whether a specific language is supported.",
    "sql": "SELECT count(*) > 0 AS supported FROM tantivy.main.supported_languages WHERE lang = 'english'"
  }
]"#;

/// The tags the `supported_languages` catalog table publishes.
pub open spec fn languages_table_tag_views() -> Seq<(Seq<char>, Seq<char>)> {
    seq![
        ("vgi.title"@, "Supported Stemmer Languages"@),
        ("vgi.doc_llm"@, LANGUAGES_TABLE_DOC_LLM@),
        ("vgi.doc_md"@, LANGUAGES_TABLE_DOC_MD@),
        ("vgi.keywords"@, json_string_array(str_views(SUPPORTED_LANGUAGES_KEYWORDS@))),
        ("domain"@, "search"@),
        ("category"@, "discovery"@),
        ("topic"@, "stemmer-languages"@),
        ("vgi.example_queries"@, LANGUAGES_TABLE_EXAMPLE_QUERIES@),
    ]
}

impl SupportedLanguages {
    /// The discovery tags of the function.
    pub fn tags(&self) -> (r: Vec<(String, String)>)
        ensures
            tag_views(r@) == supported_languages_tag_views(),
    {
        let mut tags = object_tags(
            "Supported Stemmer Languages",
            SUPPORTED_LANGUAGES_DOC_LLM,
            SUPPORTED_LANGUAGES_DOC_MD,
            SUPPORTED_LANGUAGES_KEYWORDS.as_slice(),
            "Discovery",
        );
        tags.push(("vgi.result_columns_md".to_owned(), SUPPORTED_LANGUAGES_COLUMNS_MD.to_owned()));
        assert(tag_views(tags@) =~= supported_languages_tag_views());
        tags
    }

    /// The tags of the `supported_languages` catalog table, which exposes the
    /// function as a regular table.
    pub fn table_tags(&self) -> (r: Vec<(String, String)>)
        ensures
            tag_views(r@) == languages_table_tag_views(),
    {
        let mut tags: Vec<(String, String)> = Vec::new();
        tags.push(("vgi.title".to_owned(), "Supported Stemmer Languages".to_owned()));
        tags.push(("vgi.doc_llm".to_owned(), LANGUAGES_TABLE_DOC_LLM.to_owned()));
        tags.push(("vgi.doc_md".to_owned(), LANGUAGES_TABLE_DOC_MD.to_owned()));
        tags.push(("vgi.keywords".to_owned(), keywords_json(SUPPORTED_LANGUAGES_KEYWORDS.as_slice())));
        tags.push(("domain".to_owned(), "search".to_owned()));
        tags.push(("category".to_owned(), "discovery".to_owned()));
        tags.push(("topic".to_owned(), "stemmer-languages".to_owned()));
        tags.push(("vgi.example_queries".to_owned(), LANGUAGES_TABLE_EXAMPLE_QUERIES.to_owned()));
        assert(tag_views(tags@) =~= languages_table_tag_views());
        tags
    }
}

/// The catalog's description.
pub const CATALOG_COMMENT: &'static str =
    "Full-text search (BM25 ranking), tokenization, and Snowball stemming, powered by the \
     tantivy search engine.";

/// The catalog's source repository.
pub const CATALOG_SOURCE_URL: &'static str = "https://github.com/Query-farm/vgi-tantivy";

/// The search keywords of the catalog.
pub const CATALOG_KEYWORDS: [&'static str; 12] = [
    "full-text search",
    "BM25",
    "relevance ranking",
    "tantivy",
    "tokenize",
    "tokenization",
    "stemming",
    "snowball stemmer",
    "text analysis",
    "search",
    "scoring",
    "information retrieval",
];

/// The agent-facing narrative of the catalog.
pub const CATALOG_DOC_LLM: &'static str =
    "Rank a corpus of documents against a full-text query by BM25 relevance, score a \
     single document ad-hoc, tokenize text into terms (optionally with a language \
     stemmer), and Snowball-stem individual words. Use for full-text search, relevance \
     ranking, and text analysis (tokenization/stemming) in SQL. Backed by the tantivy \
     search engine with per-call in-RAM indexes (nothing is persisted).";

/// The human-facing narrative of the catalog.
pub const CATALOG_DOC_MD: &'static str =
    "# tantivy — Full-Text Search & Text Analysis in SQL\n\n\
     ![tantivy logo](https://tantivy-search.github.io/logo/tantivy-logo.png)\n\n\
     Add **BM25 full-text search**, relevance ranking, and query-time text analysis \
     (tokenization and Snowball stemming) directly to DuckDB SQL — no separate search \
     service, index server, or ETL pipeline required. The `tantivy` worker is a \
     standalone VGI worker that DuckDB attaches over Apache Arrow, exposing lexical \
     (keyword) search and text-normalization functions you can call inline from any \
     query.\n\n\
     ## How it works\n\n\
     Every function is powered by \
     [tantivy](https://github.com/quickwit-oss/tantivy), the fast full-text search \
     engine written in Rust (the library behind Quickwit), documented at \
     [docs.rs/tantivy](https://docs.rs/tantivy/latest/tantivy/). For each \
     `bm25_search` / `bm25_score` call the worker builds a fresh in-RAM tantivy index, \
     registers the appropriate per-language analyzer (simple tokenizer + lowercasing + \
     a Snowball stemmer), indexes your documents, runs the query through tantivy's \
     query parser and top-docs collector, and drops the index when the call returns. \
     Nothing is persisted or shared between calls, so results are fully deterministic \
     and there is no external state to manage. Relevance is computed with the \
     industry-standard [Okapi BM25](https://en.wikipedia.org/wiki/Okapi_BM25) ranking \
     model, and stemming uses the [Snowball](https://snowballstem.org/) algorithms.\n\n\
     ## Key concepts\n\n\
     Corpora are passed **inline as constant JSON** rather than as table references, \
     because the ranking function binds its corpus at query-bind time: assemble a text \
     column into a JSON payload with `json_group_array` and hand it in. Relevance is \
     lexical (keyword/BM25), not semantic — there is no embedding model or vector \
     store. Text analysis is language-aware through Snowball stemming, so word variants \
     collapse to a shared root; the set of stemmer languages is discoverable at \
     runtime.\n\n\
     ## Who it's for\n\n\
     Reach for this worker whenever you want lightweight, embedded lexical search and \
     relevance ranking inside an analytical SQL workflow — log triage, document \
     shortlisting, fuzzy keyword matching, or normalizing text before joins and \
     grouping — without standing up Elasticsearch, OpenSearch, or a dedicated indexing \
     service. Every index is built in RAM **per call** and dropped immediately, and \
     corpora are passed inline as constant JSON, so queries run with no external \
     state.";

/// The analyst task suite of the catalog: self-contained, deterministic tasks
/// whose corpora are passed inline as constant JSON.
pub const CATALOG_AGENT_TEST_TASKS: &'static str = r#"[
  {
    "name": "rank corpus by relevance",
    "prompt": "Given exactly these three documents, in this order — 'the cat sat', 'dogs bark', and 'a cat and a dog' — rank them by BM25 relevance to the query 'cat'. Return every matching row as (doc_id, score), best score first, exactly as the worker produces them.",
    "reference_sql": "SELECT doc_id, score FROM tantivy.main.bm25_search('[\"the cat sat\",\"dogs bark\",\"a cat and a dog\"]', 'cat') ORDER BY score DESC, doc_id"
  },
  {
    "name": "rank corpus with explicit ids",
    "prompt": "Rank this corpus, whose documents carry explicit ids, by BM25 relevance to the query 'cat': the document with id 10 is 'the cat sat', id 20 is 'stock crash', and id 30 is 'the cat and the dog'. Return the matching rows as (doc_id, score).",
    "reference_sql": "SELECT doc_id, score FROM tantivy.main.bm25_search('[{\"id\":10,\"text\":\"the cat sat\"},{\"id\":20,\"text\":\"stock crash\"},{\"id\":30,\"text\":\"the cat and the dog\"}]', 'cat') ORDER BY score DESC, doc_id"
  },
  {
    "name": "score one document",
    "prompt": "Run the worker to compute the ad-hoc BM25 relevance score of the single document 'the cat sat on the mat' against the query 'cat'. Execute the function against these exact inputs and return the numeric score it outputs — do not estimate it or reuse a value from documentation.",
    "reference_sql": "SELECT tantivy.main.bm25_score('the cat sat on the mat', 'cat') AS score"
  },
  {
    "name": "tokenize without stemming",
    "prompt": "Use this worker to split the text 'Running quickly, CATS!' into lowercased word tokens WITHOUT any stemming (the plain 1-argument tokenizer). Run the function and return the resulting array of tokens exactly as produced.",
    "reference_sql": "SELECT tantivy.main.tokenize('Running quickly, CATS!') AS tokens"
  },
  {
    "name": "tokenize with english stemming",
    "prompt": "Use this worker to tokenize the text 'Running quickly' and additionally apply the English Snowball stemmer to each token (the 2-argument tokenizer). Return the resulting array of tokens exactly as produced.",
    "reference_sql": "SELECT tantivy.main.tokenize('Running quickly', 'english') AS tokens"
  },
  {
    "name": "list supported languages",
    "prompt": "List every Snowball stemmer language this worker supports, ordered alphabetically. Return the full list of language ids.",
    "reference_sql": "SELECT lang FROM tantivy.main.supported_languages() ORDER BY lang"
  },
  {
    "name": "stem a single word",
    "prompt": "Using this worker's single-word stemming function, reduce the individual English word 'running' to its Snowball root. Return exactly one row holding a single scalar text value — the stemmed root word itself (a plain string, not a list or array).",
    "reference_sql": "SELECT tantivy.main.stem('running', 'english') AS root",
    "ignore_column_names": true
  }
]"#;

/// The tags the catalog publishes; `engine_version` carries the engine
/// version string.
pub open spec fn catalog_tag_views(engine_version: Seq<char>) -> Seq<(Seq<char>, Seq<char>)> {
    seq![
        ("vgi.title"@, "Full-Text Search & Text Analysis"@),
        ("vgi.keywords"@, json_string_array(str_views(CATALOG_KEYWORDS@))),
        ("vgi.doc_llm"@, CATALOG_DOC_LLM@),
        ("vgi.doc_md"@, CATALOG_DOC_MD@),
        ("engine_version"@, engine_version),
        ("vgi.author"@, "Query.Farm"@),
        ("vgi.copyright"@, "Copyright 2026 Query Farm LLC - https://query.farm"@),
        ("vgi.license"@, "MIT"@),
        ("vgi.support_contact"@, "https://github.com/Query-farm/vgi-tantivy/issues"@),
        ("vgi.support_policy_url"@, "https://github.com/Query-farm/vgi-tantivy/blob/main/README.md"@),
        ("vgi.agent_test_tasks"@, CATALOG_AGENT_TEST_TASKS@),
    ]
}

/// The catalog's tags, with the running engine's version string.
pub fn catalog_tags() -> (r: Vec<(String, String)>)
    ensures
        tag_views(r@) == catalog_tag_views("tantivy v0.24.2, index_format v7"@),
{
    let mut tags: Vec<(String, String)> = Vec::new();
    tags.push(("vgi.title".to_owned(), "Full-Text Search & Text Analysis".to_owned()));
    tags.push(("vgi.keywords".to_owned(), keywords_json(CATALOG_KEYWORDS.as_slice())));
    tags.push(("vgi.doc_llm".to_owned(), CATALOG_DOC_LLM.to_owned()));
    tags.push(("vgi.doc_md".to_owned(), CATALOG_DOC_MD.to_owned()));
    tags.push(("engine_version".to_owned(), tantivy_version()));
    tags.push(("vgi.author".to_owned(), "Query.Farm".to_owned()));
    tags.push(
        ("vgi.copyright".to_owned(), "Copyright 2026 Query Farm LLC - https://query.farm".to_owned()),
    );
    tags.push(("vgi.license".to_owned(), "MIT".to_owned()));
    tags.push(
        (
            "vgi.support_contact".to_owned(),
            "https://github.com/Query-farm/vgi-tantivy/issues".to_owned(),
        ),
    );
    tags.push(
        (
            "vgi.support_policy_url".to_owned(),
            "https://github.com/Query-farm/vgi-tantivy/blob/main/README.md".to_owned(),
        ),
    );
    tags.push(("vgi.agent_test_tasks".to_owned(), CATALOG_AGENT_TEST_TASKS.to_owned()));
    assert(tag_views(tags@) =~= catalog_tag_views("tantivy v0.24.2, index_format v7"@));
    tags
}

/// The description of the catalog's single schema.
pub const SCHEMA_COMMENT: &'static str =
    "Full-text search, relevance scoring, and text-analysis functions.";

/// The search keywords of the schema.
pub const SCHEMA_KEYWORDS: [&'static str; 12] = [
    "full-text search",
    "BM25",
    "bm25_search",
    "bm25_score",
    "tokenize",
    "stem",
    "stemming",
    "supported_languages",
    "tantivy_version",
    "relevance ranking",
    "text analysis",
    "information retrieval",
];

/// The ordered category registry of the schema.
pub const SCHEMA_CATEGORIES: &'static str = r#"[
  {"name": "Search & Ranking", "description": "BM25 full-text relevance ranking of a document corpus and ad-hoc single-document scoring."},
  {"name": "Text Analysis", "description": "Language-aware tokenization and Snowball stemming primitives for normalizing text."},
  {"name": "Discovery", "description": "Introspection helpers: the supported stemmer languages and the underlying engine version."}
]"#;

/// The agent-facing narrative of the schema.
pub const SCHEMA_DOC_LLM: &'static str =
    "Full-text search and text-analysis functions: rank a JSON document corpus by \
     BM25 relevance, score a single document ad-hoc, tokenize text (optionally \
     with a language stemmer), Snowball-stem words, and list supported stemmer \
     languages.";

/// The human-facing narrative of the schema.
pub const SCHEMA_DOC_MD: &'static str =
    "## tantivy.main\n\nThe single schema of the `tantivy` worker, grouping its \
     full-text search, relevance-scoring, and text-analysis capabilities into \
     three areas.\n\n\
     ### What lives here\n\n\
     **Search & ranking** covers BM25 relevance over a document corpus that you \
     pass inline as a constant JSON payload, plus an ad-hoc single-document \
     scorer. **Text analysis** provides language-aware tokenization and Snowball \
     stemming for normalizing text before matching, grouping, or building search \
     keys. **Discovery** lets you introspect which stemmer languages are available \
     and which engine version is in use.\n\n\
     ### How it behaves\n\n\
     Every function is deterministic given its inputs and needs no persisted \
     state — indexes are built in a RAM directory per call and dropped when the \
     call returns.";

/// The representative example queries of the schema.
pub const SCHEMA_EXAMPLE_QUERIES: &'static str = r#"[
  {"description":"Rank a small JSON corpus by BM25 relevance to a query, best score first.","sql":"SELECT doc_id, score FROM tantivy.main.bm25_search('[\"the cat sat\",\"dogs bark\",\"stock crash\"]', 'cat') ORDER BY score DESC, doc_id"},
  {"description":"Compute the ad-hoc BM25 score of a single document against a query.","sql":"SELECT tantivy.main.bm25_score('the cat sat on the mat', 'cat') AS score"},
  {"description":"Tokenize text into lowercased word tokens (no stemming).","sql":"SELECT tantivy.main.tokenize('Running quickly, CATS!') AS tokens"},
  {"description":"Tokenize and Snowball-stem text for a language.","sql":"SELECT tantivy.main.tokenize('Running quickly', 'english') AS tokens"},
  {"description":"Snowball-stem a single word to its root for a language.","sql":"SELECT tantivy.main.stem('running', 'english') AS root"},
  {"description":"List the first few supported Snowball stemmer languages, alphabetically.","sql":"SELECT lang FROM tantivy.main.supported_languages ORDER BY lang LIMIT 5"}
]"#;

/// The tags the schema publishes.
pub open spec fn schema_tag_views() -> Seq<(Seq<char>, Seq<char>)> {
    seq![
        ("vgi.title"@, "Tantivy — main"@),
        ("vgi.keywords"@, json_string_array(str_views(SCHEMA_KEYWORDS@))),
        ("domain"@, "search"@),
        ("category"@, "full-text-search"@),
        ("topic"@, "bm25-ranking"@),
        ("vgi.categories"@, SCHEMA_CATEGORIES@),
        ("vgi.doc_llm"@, SCHEMA_DOC_LLM@),
        ("vgi.doc_md"@, SCHEMA_DOC_MD@),
        ("vgi.example_queries"@, SCHEMA_EXAMPLE_QUERIES@),
    ]
}

/// The schema's tags.
pub fn schema_tags() -> (r: Vec<(String, String)>)
    ensures
        tag_views(r@) == schema_tag_views(),
{
    let mut tags: Vec<(String, String)> = Vec::new();
    tags.push(("vgi.title".to_owned(), "Tantivy — main".to_owned()));
    tags.push(("vgi.keywords".to_owned(), keywords_json(SCHEMA_KEYWORDS.as_slice())));
    tags.push(("domain".to_owned(), "search".to_owned()));
    tags.push(("category".to_owned(), "full-text-search".to_owned()));
    tags.push(("topic".to_owned(), "bm25-ranking".to_owned()));
    tags.push(("vgi.categories".to_owned(), SCHEMA_CATEGORIES.to_owned()));
    tags.push(("vgi.doc_llm".to_owned(), SCHEMA_DOC_LLM.to_owned()));
    tags.push(("vgi.doc_md".to_owned(), SCHEMA_DOC_MD.to_owned()));
    tags.push(("vgi.example_queries".to_owned(), SCHEMA_EXAMPLE_QUERIES.to_owned()));
    assert(tag_views(tags@) =~= schema_tag_views());
    tags
}

/// The catalog the worker publishes, with its single schema: what
/// describes them, where they come from, and their tags.
pub struct CatalogInfo {
    pub name: String,
    pub comment: &'static str,
    pub source_url: &'static str,
    pub implementation_version: &'static str,
    pub tags: Vec<(String, String)>,
    pub schema_name: &'static str,
    pub schema_comment: &'static str,
    pub schema_tags: Vec<(String, String)>,
}

/// The catalog published under `name`: its implementation version is the
/// worker's build version, and its one schema is `main`.
pub fn catalog_info(name: &str) -> (c: CatalogInfo)
    ensures
        c.name@ == name@,
        c.comment@ == CATALOG_COMMENT@,
        c.source_url@ == CATALOG_SOURCE_URL@,
        c.implementation_version@ == worker_version(),
        tag_views(c.tags@) == catalog_tag_views("tantivy v0.24.2, index_format v7"@),
        c.schema_name@ == "main"@,
        c.schema_comment@ == SCHEMA_COMMENT@,
        tag_views(c.schema_tags@) == schema_tag_views(),
{
    proof {
        reveal_strlit("main");
    }
    CatalogInfo {
        name: name.to_owned(),
        comment: CATALOG_COMMENT,
        source_url: CATALOG_SOURCE_URL,
        implementation_version: version(),
        tags: catalog_tags(),
        schema_name: "main",
        schema_comment: SCHEMA_COMMENT,
        schema_tags: schema_tags(),
    }
}

} // verus!
