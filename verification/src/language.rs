//! The Snowball stemmer languages: their canonical ids, the accepted aliases,
//! and the resolution of a caller-supplied language id.

use vstd::prelude::*;

use crate::search::SearchError;
use crate::text::{
    ascii_lower, ascii_lower_char, ascii_lower_chars, chars_eq_str, is_ws, lemma_ascii_lower_idempotent,
    lemma_trim_ascii_lower, lemma_trim_idempotent, trim, trim_str,
};

verus! {

/// A Snowball stemmer language.
#[derive(Clone, Copy, Debug, PartialEq, Eq, Structural)]
pub enum Language {
    Arabic,
    Danish,
    Dutch,
    English,
    Finnish,
    French,
    German,
    Greek,
    Hungarian,
    Italian,
    Norwegian,
    Portuguese,
    Romanian,
    Russian,
    Spanish,
    Swedish,
    Tamil,
    Turkish,
}

/// The canonical Snowball language identifiers, in a stable order.
pub const SUPPORTED_LANGUAGES: [&'static str; 18] = [
    "arabic",
    "danish",
    "dutch",
    "english",
    "finnish",
    "french",
    "german",
    "greek",
    "hungarian",
    "italian",
    "norwegian",
    "portuguese",
    "romanian",
    "russian",
    "spanish",
    "swedish",
    "tamil",
    "turkish",
];

/// The canonical identifier of a language.
pub open spec fn language_id(l: Language) -> Seq<char> {
    match l {
        Language::Arabic => "arabic"@,
        Language::Danish => "danish"@,
        Language::Dutch => "dutch"@,
        Language::English => "english"@,
        Language::Finnish => "finnish"@,
        Language::French => "french"@,
        Language::German => "german"@,
        Language::Greek => "greek"@,
        Language::Hungarian => "hungarian"@,
        Language::Italian => "italian"@,
        Language::Norwegian => "norwegian"@,
        Language::Portuguese => "portuguese"@,
        Language::Romanian => "romanian"@,
        Language::Russian => "russian"@,
        Language::Spanish => "spanish"@,
        Language::Swedish => "swedish"@,
        Language::Tamil => "tamil"@,
        Language::Turkish => "turkish"@,
    }
}

/// The language a normalized (trimmed, lower-case) id names: its canonical
/// identifier or its ISO code.
pub open spec fn language_of_id(n: Seq<char>) -> Option<Language> {
    if n == "arabic"@ || n == "ar"@ {
        Some(Language::Arabic)
    } else if n == "danish"@ || n == "da"@ {
        Some(Language::Danish)
    } else if n == "dutch"@ || n == "nl"@ {
        Some(Language::Dutch)
    } else if n == "english"@ || n == "en"@ {
        Some(Language::English)
    } else if n == "finnish"@ || n == "fi"@ {
        Some(Language::Finnish)
    } else if n == "french"@ || n == "fr"@ {
        Some(Language::French)
    } else if n == "german"@ || n == "de"@ {
        Some(Language::German)
    } else if n == "greek"@ || n == "el"@ {
        Some(Language::Greek)
    } else if n == "hungarian"@ || n == "hu"@ {
        Some(Language::Hungarian)
    } else if n == "italian"@ || n == "it"@ {
        Some(Language::Italian)
    } else if n == "norwegian"@ || n == "no"@ || n == "nb"@ {
        Some(Language::Norwegian)
    } else if n == "portuguese"@ || n == "pt"@ {
        Some(Language::Portuguese)
    } else if n == "romanian"@ || n == "ro"@ {
        Some(Language::Romanian)
    } else if n == "russian"@ || n == "ru"@ {
        Some(Language::Russian)
    } else if n == "spanish"@ || n == "es"@ {
        Some(Language::Spanish)
    } else if n == "swedish"@ || n == "sv"@ {
        Some(Language::Swedish)
    } else if n == "tamil"@ || n == "ta"@ {
        Some(Language::Tamil)
    } else if n == "turkish"@ || n == "tr"@ {
        Some(Language::Turkish)
    } else {
        None
    }
}

/// The language a caller-supplied id resolves to: the id is trimmed of
/// surrounding whitespace and ASCII-lower-cased first; an id that is empty
/// once trimmed selects English.
pub open spec fn resolves_to(name: Seq<char>) -> Option<Language> {
    if trim(name).len() == 0 {
        Some(Language::English)
    } else {
        language_of_id(ascii_lower(trim(name)))
    }
}

impl Language {
    /// The canonical identifier of this language.
    pub fn id(&self) -> (r: &'static str)
        ensures
            r@ == language_id(*self),
    {
        match self {
            Language::Arabic => "arabic",
            Language::Danish => "danish",
            Language::Dutch => "dutch",
            Language::English => "english",
            Language::Finnish => "finnish",
            Language::French => "french",
            Language::German => "german",
            Language::Greek => "greek",
            Language::Hungarian => "hungarian",
            Language::Italian => "italian",
            Language::Norwegian => "norwegian",
            Language::Portuguese => "portuguese",
            Language::Romanian => "romanian",
            Language::Russian => "russian",
            Language::Spanish => "spanish",
            Language::Swedish => "swedish",
            Language::Tamil => "tamil",
            Language::Turkish => "turkish",
        }
    }
}

/// Resolves a (case-insensitive, whitespace-tolerant) language id to a
/// language; an empty (or blank) id selects English, and an unknown id is an
/// error carrying the id as given.
pub fn resolve_language(name: &str) -> (r: Result<Language, SearchError>)
    ensures
        trim(name@).len() == 0 ==> r == Ok::<Language, SearchError>(Language::English),
        match resolves_to(name@) {
            Some(l) => r == Ok::<Language, SearchError>(l),
            None => r matches Err(SearchError::UnknownLanguage(m)) && m@ == name@,
        },
{
    let n = ascii_lower_chars(trim_str(name));
    if n.len() == 0 {
        Ok(Language::English)
    } else if chars_eq_str(&n, "arabic") || chars_eq_str(&n, "ar") {
        Ok(Language::Arabic)
    } else if chars_eq_str(&n, "danish") || chars_eq_str(&n, "da") {
        Ok(Language::Danish)
    } else if chars_eq_str(&n, "dutch") || chars_eq_str(&n, "nl") {
        Ok(Language::Dutch)
    } else if chars_eq_str(&n, "english") || chars_eq_str(&n, "en") {
        Ok(Language::English)
    } else if chars_eq_str(&n, "finnish") || chars_eq_str(&n, "fi") {
        Ok(Language::Finnish)
    } else if chars_eq_str(&n, "french") || chars_eq_str(&n, "fr") {
        Ok(Language::French)
    } else if chars_eq_str(&n, "german") || chars_eq_str(&n, "de") {
        Ok(Language::German)
    } else if chars_eq_str(&n, "greek") || chars_eq_str(&n, "el") {
        Ok(Language::Greek)
    } else if chars_eq_str(&n, "hungarian") || chars_eq_str(&n, "hu") {
        Ok(Language::Hungarian)
    } else if chars_eq_str(&n, "italian") || chars_eq_str(&n, "it") {
        Ok(Language::Italian)
    } else if chars_eq_str(&n, "norwegian") || chars_eq_str(&n, "no") || chars_eq_str(&n, "nb") {
        Ok(Language::Norwegian)
    } else if chars_eq_str(&n, "portuguese") || chars_eq_str(&n, "pt") {
        Ok(Language::Portuguese)
    } else if chars_eq_str(&n, "romanian") || chars_eq_str(&n, "ro") {
        Ok(Language::Romanian)
    } else if chars_eq_str(&n, "russian") || chars_eq_str(&n, "ru") {
        Ok(Language::Russian)
    } else if chars_eq_str(&n, "spanish") || chars_eq_str(&n, "es") {
        Ok(Language::Spanish)
    } else if chars_eq_str(&n, "swedish") || chars_eq_str(&n, "sv") {
        Ok(Language::Swedish)
    } else if chars_eq_str(&n, "tamil") || chars_eq_str(&n, "ta") {
        Ok(Language::Tamil)
    } else if chars_eq_str(&n, "turkish") || chars_eq_str(&n, "tr") {
        Ok(Language::Turkish)
    } else {
        Err(SearchError::UnknownLanguage(name.to_owned()))
    }
}

proof fn lemma_plain_id_normal(s: Seq<char>)
    requires
        s.len() > 0,
        forall|i: int| 0 <= i < s.len() ==> 'a' <= #[trigger] s[i] && s[i] <= 'z',
    ensures
        ascii_lower(trim(s)) == s,
{
    assert(!is_ws(s[0]));
    assert(!is_ws(s.last()));
    assert(trim(s) == s);
    assert forall|i: int| 0 <= i < s.len() implies #[trigger] ascii_lower_char(s[i]) == s[i] by {}
    assert(ascii_lower(s) =~= s);
}

/// Every language's canonical id resolves to that language.
pub proof fn lemma_id_resolves(l: Language)
    ensures
        resolves_to(language_id(l)) == Some(l),
{
    reveal_strlit("arabic");
    reveal_strlit("danish");
    reveal_strlit("dutch");
    reveal_strlit("english");
    reveal_strlit("finnish");
    reveal_strlit("french");
    reveal_strlit("german");
    reveal_strlit("greek");
    reveal_strlit("hungarian");
    reveal_strlit("italian");
    reveal_strlit("norwegian");
    reveal_strlit("portuguese");
    reveal_strlit("romanian");
    reveal_strlit("russian");
    reveal_strlit("spanish");
    reveal_strlit("swedish");
    reveal_strlit("tamil");
    reveal_strlit("turkish");
    reveal_strlit("ar");
    reveal_strlit("da");
    reveal_strlit("nl");
    reveal_strlit("en");
    reveal_strlit("fi");
    reveal_strlit("fr");
    reveal_strlit("de");
    reveal_strlit("el");
    reveal_strlit("hu");
    reveal_strlit("it");
    reveal_strlit("no");
    reveal_strlit("nb");
    reveal_strlit("pt");
    reveal_strlit("ro");
    reveal_strlit("ru");
    reveal_strlit("es");
    reveal_strlit("sv");
    reveal_strlit("ta");
    reveal_strlit("tr");
    lemma_plain_id_normal(language_id(l));
    let n = language_id(l);
    match l {
        Language::Arabic => { assert(language_of_id(n) == Some(l)); }
        Language::Danish => { assert(language_of_id(n) == Some(l)); }
        Language::Dutch => { assert(language_of_id(n) == Some(l)); }
        Language::English => { assert(language_of_id(n) == Some(l)); }
        Language::Finnish => { assert(language_of_id(n) == Some(l)); }
        Language::French => { assert(language_of_id(n) == Some(l)); }
        Language::German => { assert(language_of_id(n) == Some(l)); }
        Language::Greek => { assert(language_of_id(n) == Some(l)); }
        Language::Hungarian => { assert(language_of_id(n) == Some(l)); }
        Language::Italian => { assert(language_of_id(n) == Some(l)); }
        Language::Norwegian => { assert(language_of_id(n) == Some(l)); }
        Language::Portuguese => { assert(language_of_id(n) == Some(l)); }
        Language::Romanian => { assert(language_of_id(n) == Some(l)); }
        Language::Russian => { assert(language_of_id(n) == Some(l)); }
        Language::Spanish => { assert(language_of_id(n) == Some(l)); }
        Language::Swedish => {
            assert(n[1] != "spanish"@[1]);
            assert(language_of_id(n) == Some(l));
        }
        Language::Tamil => { assert(language_of_id(n) == Some(l)); }
        Language::Turkish => { assert(language_of_id(n) == Some(l)); }
    }
}

/// The language listed at position `i` of [`SUPPORTED_LANGUAGES`].
pub open spec fn language_at(i: int) -> Language {
    if i == 0 {
        Language::Arabic
    } else if i == 1 {
        Language::Danish
    } else if i == 2 {
        Language::Dutch
    } else if i == 3 {
        Language::English
    } else if i == 4 {
        Language::Finnish
    } else if i == 5 {
        Language::French
    } else if i == 6 {
        Language::German
    } else if i == 7 {
        Language::Greek
    } else if i == 8 {
        Language::Hungarian
    } else if i == 9 {
        Language::Italian
    } else if i == 10 {
        Language::Norwegian
    } else if i == 11 {
        Language::Portuguese
    } else if i == 12 {
        Language::Romanian
    } else if i == 13 {
        Language::Russian
    } else if i == 14 {
        Language::Spanish
    } else if i == 15 {
        Language::Swedish
    } else if i == 16 {
        Language::Tamil
    } else if i == 17 {
        Language::Turkish
    } else {
        Language::Turkish
    }
}

/// The position of a language in [`SUPPORTED_LANGUAGES`].
pub open spec fn language_index(l: Language) -> int {
    match l {
        Language::Arabic => 0,
        Language::Danish => 1,
        Language::Dutch => 2,
        Language::English => 3,
        Language::Finnish => 4,
        Language::French => 5,
        Language::German => 6,
        Language::Greek => 7,
        Language::Hungarian => 8,
        Language::Italian => 9,
        Language::Norwegian => 10,
        Language::Portuguese => 11,
        Language::Romanian => 12,
        Language::Russian => 13,
        Language::Spanish => 14,
        Language::Swedish => 15,
        Language::Tamil => 16,
        Language::Turkish => 17,
    }
}

/// Every listed language id resolves, to the language whose canonical id it
/// is; the list holds each language exactly once, so no id repeats.
pub proof fn lemma_supported_languages()
    ensures
        forall|i: int|
            0 <= i < 18 ==> #[trigger] SUPPORTED_LANGUAGES[i]@ == language_id(language_at(i))
                && resolves_to(SUPPORTED_LANGUAGES[i]@) == Some(language_at(i)),
        forall|i: int, j: int|
            0 <= i < 18 && 0 <= j < 18 && i != j ==> #[trigger] SUPPORTED_LANGUAGES[i]@
                != #[trigger] SUPPORTED_LANGUAGES[j]@,
        forall|l: Language|
            0 <= #[trigger] language_index(l) < 18 && language_at(language_index(l)) == l,
{
    assert forall|i: int| 0 <= i < 18 implies #[trigger] SUPPORTED_LANGUAGES[i]@ == language_id(
        language_at(i),
    ) && resolves_to(SUPPORTED_LANGUAGES[i]@) == Some(language_at(i)) && language_index(
        language_at(i),
    ) == i by {
        lemma_id_resolves(language_at(i));
        if i == 0 {
        } else if i == 1 {
        } else if i == 2 {
        } else if i == 3 {
        } else if i == 4 {
        } else if i == 5 {
        } else if i == 6 {
        } else if i == 7 {
        } else if i == 8 {
        } else if i == 9 {
        } else if i == 10 {
        } else if i == 11 {
        } else if i == 12 {
        } else if i == 13 {
        } else if i == 14 {
        } else if i == 15 {
        } else if i == 16 {
        } else {
        }
    }
    assert forall|i: int, j: int|
        0 <= i < 18 && 0 <= j < 18 && i != j implies #[trigger] SUPPORTED_LANGUAGES[i]@
        != #[trigger] SUPPORTED_LANGUAGES[j]@ by {
        assert(language_index(language_at(i)) == i);
        assert(language_index(language_at(j)) == j);
    }
}

/// The ISO 639-1 code accepted for a language.
pub open spec fn iso_code(l: Language) -> Seq<char> {
    match l {
        Language::Arabic => "ar"@,
        Language::Danish => "da"@,
        Language::Dutch => "nl"@,
        Language::English => "en"@,
        Language::Finnish => "fi"@,
        Language::French => "fr"@,
        Language::German => "de"@,
        Language::Greek => "el"@,
        Language::Hungarian => "hu"@,
        Language::Italian => "it"@,
        Language::Norwegian => "no"@,
        Language::Portuguese => "pt"@,
        Language::Romanian => "ro"@,
        Language::Russian => "ru"@,
        Language::Spanish => "es"@,
        Language::Swedish => "sv"@,
        Language::Tamil => "ta"@,
        Language::Turkish => "tr"@,
    }
}

/// Every language's ISO code resolves to that language, and so does `nb`
/// (Norwegian Bokmål).
pub proof fn lemma_iso_codes_resolve(l: Language)
    ensures
        resolves_to(iso_code(l)) == Some(l),
        resolves_to("nb"@) == Some(Language::Norwegian),
{
    reveal_strlit("arabic");
    reveal_strlit("danish");
    reveal_strlit("dutch");
    reveal_strlit("english");
    reveal_strlit("finnish");
    reveal_strlit("french");
    reveal_strlit("german");
    reveal_strlit("greek");
    reveal_strlit("hungarian");
    reveal_strlit("italian");
    reveal_strlit("norwegian");
    reveal_strlit("portuguese");
    reveal_strlit("romanian");
    reveal_strlit("russian");
    reveal_strlit("spanish");
    reveal_strlit("swedish");
    reveal_strlit("tamil");
    reveal_strlit("turkish");
    reveal_strlit("ar");
    reveal_strlit("da");
    reveal_strlit("nl");
    reveal_strlit("en");
    reveal_strlit("fi");
    reveal_strlit("fr");
    reveal_strlit("de");
    reveal_strlit("el");
    reveal_strlit("hu");
    reveal_strlit("it");
    reveal_strlit("no");
    reveal_strlit("pt");
    reveal_strlit("ro");
    reveal_strlit("ru");
    reveal_strlit("es");
    reveal_strlit("sv");
    reveal_strlit("ta");
    reveal_strlit("tr");
    reveal_strlit("nb");
    lemma_plain_id_normal(iso_code(l));
    lemma_plain_id_normal("nb"@);
}

/// Resolution ignores ASCII case and surrounding whitespace: an id resolves
/// as its lower-cased form and as its trimmed form do.
pub proof fn lemma_resolution_ignores_case_and_padding(name: Seq<char>)
    ensures
        resolves_to(ascii_lower(name)) == resolves_to(name),
        resolves_to(trim(name)) == resolves_to(name),
{
    lemma_trim_ascii_lower(name);
    lemma_ascii_lower_idempotent(trim(name));
    lemma_trim_idempotent(name);
}

} // verus!
