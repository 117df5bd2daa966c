//! The per-object discovery/description tags every function and table
//! publishes: title, narratives for agents and humans, keywords as a JSON
//! array of strings, category, and described example queries.

use vstd::prelude::*;

use crate::text::join;

verus! {

/// The lower-case hexadecimal digit for `d < 16`.
pub open spec fn hex_digit(d: nat) -> char {
    if d < 10 {
        ('0' as nat + d) as char
    } else {
        ('a' as nat + d - 10) as char
    }
}

/// How JSON writes the character `c` inside a string literal: quote and
/// backslash are escaped, control characters take their short escape or a
/// `\u00XX` one, every other character stands for itself.
pub open spec fn json_escape(c: char) -> Seq<char> {
    if c == '"' {
        seq!['\\', '"']
    } else if c == '\\' {
        seq!['\\', '\\']
    } else if c == '\u{8}' {
        seq!['\\', 'b']
    } else if c == '\t' {
        seq!['\\', 't']
    } else if c == '\n' {
        seq!['\\', 'n']
    } else if c == '\u{c}' {
        seq!['\\', 'f']
    } else if c == '\r' {
        seq!['\\', 'r']
    } else if (c as nat) < 0x20 {
        seq!['\\', 'u', '0', '0', hex_digit((c as nat) / 16), hex_digit((c as nat) % 16)]
    } else {
        seq![c]
    }
}

/// The escaped contents of a JSON string literal holding `s`.
pub open spec fn json_escaped(s: Seq<char>) -> Seq<char>
    decreases s.len(),
{
    if s.len() == 0 {
        Seq::empty()
    } else {
        json_escaped(s.drop_last()) + json_escape(s.last())
    }
}

/// The JSON string literal holding `s`.
pub open spec fn json_quoted(s: Seq<char>) -> Seq<char> {
    seq!['"'] + json_escaped(s) + seq!['"']
}

/// The compact JSON array of the strings `items`.
pub open spec fn json_string_array(items: Seq<Seq<char>>) -> Seq<char> {
    seq!['['] + join(items.map_values(|s: Seq<char>| json_quoted(s)), seq![',']) + seq![']']
}

/// The compact JSON object `{"description": d, "sql": q}`.
pub open spec fn json_example(d: Seq<char>, q: Seq<char>) -> Seq<char> {
    "{\"description\":"@ + json_quoted(d) + ",\"sql\":"@ + json_quoted(q) + seq!['}']
}

/// The compact JSON array of described examples `(description, sql)`.
pub open spec fn json_example_array(examples: Seq<(Seq<char>, Seq<char>)>) -> Seq<char> {
    seq!['['] + join(
        examples.map_values(|e: (Seq<char>, Seq<char>)| json_example(e.0, e.1)),
        seq![','],
    ) + seq![']']
}

/// The JSON string literal holding `s`, written by `serde_json::to_string`.
/// Writing into memory cannot fail, so the error arm is never taken; the
/// contract states serde_json's escaping rules, read from its serializer.
#[verifier::external_body]
fn json_string(s: &str) -> (r: String)
    ensures
        r@ == json_quoted(s@),
{
    serde_json::to_string(s).unwrap_or_default()
}

/// The mathematical value of a list of `(key, value)` tags.
pub open spec fn tag_views(tags: Seq<(String, String)>) -> Seq<(Seq<char>, Seq<char>)> {
    tags.map_values(|t: (String, String)| (t.0@, t.1@))
}

/// Serializes a keyword list as a compact JSON array of strings, e.g.
/// `["bm25","search"]`, the form the `vgi.keywords` tag takes.
pub fn keywords_json(keywords: &[&str]) -> (r: String)
    ensures
        r@ == json_string_array(keywords@.map_values(|k: &str| k@)),
{
    let ghost items = keywords@.map_values(|k: &str| k@);
    let ghost qs = items.map_values(|s: Seq<char>| json_quoted(s));
    let mut body = String::new();
    let n = keywords.len();
    let mut i: usize = 0;
    while i < n
        invariant
            n == keywords@.len(),
            i <= n,
            qs.len() == n,
            forall|j: int| 0 <= j < n ==> #[trigger] qs[j] == json_quoted(keywords@[j]@),
            body@ == join(qs.take(i as int), seq![',']),
        decreases n - i,
    {
        proof {
            assert(qs.take(i + 1).drop_last() =~= qs.take(i as int));
            assert(qs.take(i + 1).last() == qs[i as int]);
        }
        if i > 0 {
            body.append(",");
            proof {
                reveal_strlit(",");
            }
        }
        let q = json_string(keywords[i]);
        body.append(q.as_str());
        i = i + 1;
    }
    proof {
        assert(qs.take(n as int) =~= qs);
        reveal_strlit("[");
        reveal_strlit("]");
    }
    let mut out = "[".to_owned();
    out.append(body.as_str());
    out.append("]");
    assert(out@ =~= json_string_array(items));
    out
}

/// Serializes `(description, sql)` examples as the compact JSON list
/// `[{"description":…,"sql":…}]` and pairs it with the `vgi.example_queries`
/// tag key.
pub fn example_queries_tag(examples: &[(&str, &str)]) -> (r: (String, String))
    ensures
        r.0@ == "vgi.example_queries"@,
        r.1@ == json_example_array(examples@.map_values(|e: (&str, &str)| (e.0@, e.1@))),
{
    let ghost items = examples@.map_values(|e: (&str, &str)| (e.0@, e.1@));
    let ghost objs = items.map_values(|e: (Seq<char>, Seq<char>)| json_example(e.0, e.1));
    let mut body = String::new();
    let n = examples.len();
    let mut i: usize = 0;
    while i < n
        invariant
            n == examples@.len(),
            i <= n,
            objs.len() == n,
            forall|j: int|
                0 <= j < n ==> #[trigger] objs[j] == json_example(examples@[j].0@, examples@[j].1@),
            body@ == join(objs.take(i as int), seq![',']),
        decreases n - i,
    {
        proof {
            assert(objs.take(i + 1).drop_last() =~= objs.take(i as int));
            assert(objs.take(i + 1).last() == objs[i as int]);
        }
        if i > 0 {
            body.append(",");
            proof {
                reveal_strlit(",");
            }
        }
        let mut obj = "{\"description\":".to_owned();
        let d = json_string(examples[i].0);
        obj.append(d.as_str());
        obj.append(",\"sql\":");
        let q = json_string(examples[i].1);
        obj.append(q.as_str());
        obj.append("}");
        proof {
            reveal_strlit("}");
            assert(obj@ =~= objs[i as int]);
        }
        body.append(obj.as_str());
        i = i + 1;
    }
    proof {
        assert(objs.take(n as int) =~= objs);
        reveal_strlit("[");
        reveal_strlit("]");
    }
    let mut out = "[".to_owned();
    out.append(body.as_str());
    out.append("]");
    assert(out@ =~= json_example_array(items));
    ("vgi.example_queries".to_owned(), out)
}

/// The five standard per-object tags for the given texts and keywords.
pub open spec fn object_tag_views(
    title: Seq<char>,
    doc_llm: Seq<char>,
    doc_md: Seq<char>,
    keywords: Seq<Seq<char>>,
    category: Seq<char>,
) -> Seq<(Seq<char>, Seq<char>)> {
    seq![
        ("vgi.title"@, title),
        ("vgi.doc_llm"@, doc_llm),
        ("vgi.doc_md"@, doc_md),
        ("vgi.keywords"@, json_string_array(keywords)),
        ("vgi.category"@, category),
    ]
}

/// Builds the five standard per-object discovery/description tags:
/// `vgi.title`, `vgi.doc_llm`, `vgi.doc_md`, `vgi.keywords` (the keywords as
/// a JSON array of strings) and `vgi.category`.
pub fn object_tags(title: &str, doc_llm: &str, doc_md: &str, keywords: &[&str], category: &str) -> (r:
    Vec<(String, String)>)
    ensures
        tag_views(r@) == object_tag_views(
            title@,
            doc_llm@,
            doc_md@,
            keywords@.map_values(|k: &str| k@),
            category@,
        ),
{
    let mut tags: Vec<(String, String)> = Vec::new();
    tags.push(("vgi.title".to_owned(), title.to_owned()));
    tags.push(("vgi.doc_llm".to_owned(), doc_llm.to_owned()));
    tags.push(("vgi.doc_md".to_owned(), doc_md.to_owned()));
    tags.push(("vgi.keywords".to_owned(), keywords_json(keywords)));
    tags.push(("vgi.category".to_owned(), category.to_owned()));
    assert(tag_views(tags@) =~= seq![
        ("vgi.title"@, title@),
        ("vgi.doc_llm"@, doc_llm@),
        ("vgi.doc_md"@, doc_md@),
        ("vgi.keywords"@, json_string_array(keywords@.map_values(|k: &str| k@))),
        ("vgi.category"@, category@),
    ]);
    tags
}

} // verus!
