# tantivy_worker

Full-text search functions for SQL over Arrow, powered by tantivy: BM25
ranking of a caller-supplied JSON corpus, tokenization, Snowball stemming, and
the catalog metadata that describes them.

The library under `src/` is verified with Verus:

- `text` — whitespace trimming, ASCII lower-casing, decimal rendering, joining.
- `language` — the Snowball languages, their ids and aliases, and how a
  caller-supplied language id resolves.
- `search` — the error type, the input bounds, tokenization and stemming
  through tantivy's analyzers, and the decision of whether a search runs.
- `corpus` — the `docs_json` payload (parsed with serde_json) and the corpus it
  describes.
- `engine` — BM25 ranking with a fresh tantivy index in RAM per call: what a
  search finds is mapped back to the corpus and put in reporting order.
- `ranking` — the reporting order of hits: descending score, ties by ascending
  document id; scores are held as integer keys made from their IEEE bits.
- `scalar`, `table` — the per-row scalar functions and the table functions.
- `meta`, `catalog` — the JSON-valued metadata tags and the catalog's texts.

`app/` holds the worker binary: argument handling, the Arrow batches, the
catalog registration, and the widening of scores to `DOUBLE`.
