//! Character-level helpers on text: Unicode whitespace trimming, ASCII
//! lower-casing, literal comparison, decimal rendering and joining.

use vstd::prelude::*;

verus! {

/// Unicode `White_Space`, the property `char::is_whitespace` tests and the
/// one `str::trim` strips.
pub open spec fn is_ws(c: char) -> bool {
    ||| ('\u{9}' <= c && c <= '\u{d}')
    ||| c == ' '
    ||| c == '\u{85}'
    ||| c == '\u{a0}'
    ||| c == '\u{1680}'
    ||| ('\u{2000}' <= c && c <= '\u{200a}')
    ||| c == '\u{2028}'
    ||| c == '\u{2029}'
    ||| c == '\u{202f}'
    ||| c == '\u{205f}'
    ||| c == '\u{3000}'
}

/// `s` with its leading whitespace removed.
pub open spec fn trim_start(s: Seq<char>) -> Seq<char>
    decreases s.len(),
{
    if s.len() > 0 && is_ws(s[0]) {
        trim_start(s.drop_first())
    } else {
        s
    }
}

/// `s` with its trailing whitespace removed.
pub open spec fn trim_end(s: Seq<char>) -> Seq<char>
    decreases s.len(),
{
    if s.len() > 0 && is_ws(s.last()) {
        trim_end(s.drop_last())
    } else {
        s
    }
}

/// `s` with leading and trailing whitespace removed, as `str::trim` does.
pub open spec fn trim(s: Seq<char>) -> Seq<char> {
    trim_end(trim_start(s))
}

/// Whether `s` is empty once trimmed: nothing but whitespace.
pub open spec fn is_blank(s: Seq<char>) -> bool {
    forall|i: int| 0 <= i < s.len() ==> #[trigger] is_ws(s[i])
}

/// ASCII lower-casing of one character, as `char::to_ascii_lowercase`.
pub open spec fn ascii_lower_char(c: char) -> char {
    if 'A' <= c && c <= 'Z' {
        ((c as u32) + 32) as char
    } else {
        c
    }
}

/// ASCII lower-casing of a text, as `str::to_ascii_lowercase`.
pub open spec fn ascii_lower(s: Seq<char>) -> Seq<char> {
    s.map_values(|c: char| ascii_lower_char(c))
}

/// The decimal digit character for `d < 10`.
pub open spec fn digit_char(d: nat) -> char {
    if d == 0 {
        '0'
    } else if d == 1 {
        '1'
    } else if d == 2 {
        '2'
    } else if d == 3 {
        '3'
    } else if d == 4 {
        '4'
    } else if d == 5 {
        '5'
    } else if d == 6 {
        '6'
    } else if d == 7 {
        '7'
    } else if d == 8 {
        '8'
    } else {
        '9'
    }
}

/// The decimal rendering of `n`, without sign or leading zeros, as `Display`
/// writes an unsigned integer.
pub open spec fn decimal(n: nat) -> Seq<char>
    decreases n,
{
    if n < 10 {
        seq![digit_char(n)]
    } else {
        decimal(n / 10).push(digit_char(n % 10))
    }
}

/// The texts of `parts` joined by `sep`, as `[String]::join`.
pub open spec fn join(parts: Seq<Seq<char>>, sep: Seq<char>) -> Seq<char>
    decreases parts.len(),
{
    if parts.len() == 0 {
        Seq::empty()
    } else if parts.len() == 1 {
        parts[0]
    } else {
        join(parts.drop_last(), sep) + sep + parts.last()
    }
}

/// The views of a vector of strings.
pub open spec fn views(v: Seq<String>) -> Seq<Seq<char>> {
    v.map_values(|s: String| s@)
}

proof fn lemma_encode_len(cs: Seq<char>)
    ensures
        vstd::utf8::encode_utf8(cs).len() >= cs.len(),
    decreases cs.len(),
{
    if cs.len() > 0 {
        lemma_encode_len(cs.drop_first());
    }
}

/// The number of characters of a text fits in a `usize`.
pub fn char_count_fits(s: &str)
    ensures
        s@.len() <= usize::MAX,
{
    let b = s.as_bytes();
    let _n = b.len();
    proof {
        lemma_encode_len(s@);
        assert(b@.len() <= usize::MAX);
    }
}

/// Whether `c` is Unicode whitespace.
pub fn is_whitespace(c: char) -> (b: bool)
    ensures
        b == is_ws(c),
{
    ('\u{9}' <= c && c <= '\u{d}') || c == ' ' || c == '\u{85}' || c == '\u{a0}' || c == '\u{1680}'
        || ('\u{2000}' <= c && c <= '\u{200a}') || c == '\u{2028}' || c == '\u{2029}' || c
        == '\u{202f}' || c == '\u{205f}' || c == '\u{3000}'
}

proof fn lemma_trim_start_at(s: Seq<char>, a: int)
    requires
        0 <= a <= s.len(),
        forall|j: int| 0 <= j < a ==> #[trigger] is_ws(s[j]),
        a == s.len() || !is_ws(s[a]),
    ensures
        trim_start(s) == s.subrange(a, s.len() as int),
    decreases a,
{
    if a == 0 {
        assert(s.subrange(0, s.len() as int) =~= s);
    } else {
        let t = s.drop_first();
        assert forall|j: int| 0 <= j < a - 1 implies #[trigger] is_ws(t[j]) by {
            assert(is_ws(s[j + 1]));
        }
        if a < s.len() {
            assert(t[a - 1] == s[a]);
        }
        lemma_trim_start_at(t, a - 1);
        assert(is_ws(s[0]));
        assert(t.subrange(a - 1, t.len() as int) =~= s.subrange(a, s.len() as int));
    }
}

proof fn lemma_trim_end_at(s: Seq<char>, b: int)
    requires
        0 <= b <= s.len(),
        forall|j: int| b <= j < s.len() ==> #[trigger] is_ws(s[j]),
        b == 0 || !is_ws(s[b - 1]),
    ensures
        trim_end(s) == s.subrange(0, b),
    decreases s.len() - b,
{
    if b == s.len() {
        assert(s.subrange(0, b) =~= s);
    } else {
        let t = s.drop_last();
        assert(is_ws(s[s.len() - 1]));
        assert forall|j: int| b <= j < t.len() implies #[trigger] is_ws(t[j]) by {
            assert(is_ws(s[j]));
        }
        if b > 0 {
            assert(t[b - 1] == s[b - 1]);
        }
        lemma_trim_end_at(t, b);
        assert(t.subrange(0, b) =~= s.subrange(0, b));
    }
}

/// A text made only of whitespace trims to nothing.
pub proof fn lemma_trim_blank(s: Seq<char>)
    requires
        is_blank(s),
    ensures
        trim(s) == Seq::<char>::empty(),
{
    lemma_trim_start_at(s, s.len() as int);
    let e = s.subrange(s.len() as int, s.len() as int);
    assert(e =~= Seq::<char>::empty());
}

proof fn lemma_trim_start_shape(s: Seq<char>)
    ensures
        trim_start(s).len() == 0 || !is_ws(trim_start(s)[0]),
        trim_start(s).len() <= s.len(),
        trim_start(s) == s.subrange(s.len() - trim_start(s).len(), s.len() as int),
    decreases s.len(),
{
    if s.len() > 0 && is_ws(s[0]) {
        lemma_trim_start_shape(s.drop_first());
        assert(s.drop_first().subrange(
            s.drop_first().len() - trim_start(s).len(),
            s.drop_first().len() as int,
        ) =~= s.subrange(s.len() - trim_start(s).len(), s.len() as int));
    } else {
        assert(s.subrange(0, s.len() as int) =~= s);
    }
}

proof fn lemma_trim_end_shape(s: Seq<char>)
    ensures
        trim_end(s).len() == 0 || !is_ws(trim_end(s).last()),
        trim_end(s).len() <= s.len(),
        trim_end(s) == s.subrange(0, trim_end(s).len() as int),
    decreases s.len(),
{
    if s.len() > 0 && is_ws(s.last()) {
        lemma_trim_end_shape(s.drop_last());
        assert(s.drop_last().subrange(0, trim_end(s).len() as int) =~= s.subrange(
            0,
            trim_end(s).len() as int,
        ));
    } else {
        assert(s.subrange(0, s.len() as int) =~= s);
    }
}

/// Trimming twice trims as once.
pub proof fn lemma_trim_idempotent(s: Seq<char>)
    ensures
        trim(trim(s)) == trim(s),
{
    let u = trim_start(s);
    let t = trim_end(u);
    lemma_trim_start_shape(s);
    lemma_trim_end_shape(u);
    if t.len() > 0 {
        assert(t[0] == u[0]);
        assert(trim_start(t) == t);
    } else {
        assert(trim_start(t) == t);
    }
    assert(trim_end(t) == t);
}

/// ASCII lower-casing keeps whitespace whitespace and anything else not.
proof fn lemma_ascii_lower_ws(c: char)
    ensures
        is_ws(ascii_lower_char(c)) == is_ws(c),
{
    if 'A' <= c && c <= 'Z' {
        let d = ascii_lower_char(c);
        assert('a' <= d && d <= 'z') by {
            assert((c as u32) + 32 <= 'z' as u32);
        }
    }
}

proof fn lemma_trim_start_ascii_lower(s: Seq<char>)
    ensures
        trim_start(ascii_lower(s)) == ascii_lower(trim_start(s)),
    decreases s.len(),
{
    if s.len() > 0 {
        lemma_ascii_lower_ws(s[0]);
        assert(ascii_lower(s)[0] == ascii_lower_char(s[0]));
        if is_ws(s[0]) {
            assert(ascii_lower(s).drop_first() =~= ascii_lower(s.drop_first()));
            lemma_trim_start_ascii_lower(s.drop_first());
        }
    }
}

proof fn lemma_trim_end_ascii_lower(s: Seq<char>)
    ensures
        trim_end(ascii_lower(s)) == ascii_lower(trim_end(s)),
    decreases s.len(),
{
    if s.len() > 0 {
        lemma_ascii_lower_ws(s.last());
        assert(ascii_lower(s).last() == ascii_lower_char(s.last()));
        if is_ws(s.last()) {
            assert(ascii_lower(s).drop_last() =~= ascii_lower(s.drop_last()));
            lemma_trim_end_ascii_lower(s.drop_last());
        }
    }
}

/// Trimming and ASCII lower-casing commute.
pub proof fn lemma_trim_ascii_lower(s: Seq<char>)
    ensures
        trim(ascii_lower(s)) == ascii_lower(trim(s)),
{
    lemma_trim_start_ascii_lower(s);
    lemma_trim_end_ascii_lower(trim_start(s));
}

/// Lower-casing twice lower-cases as once.
pub proof fn lemma_ascii_lower_idempotent(s: Seq<char>)
    ensures
        ascii_lower(ascii_lower(s)) == ascii_lower(s),
{
    assert forall|i: int| 0 <= i < s.len() implies #[trigger] ascii_lower_char(ascii_lower_char(s[i]))
        == ascii_lower_char(s[i]) by {
        let c = s[i];
        if 'A' <= c && c <= 'Z' {
            assert((c as u32) + 32 <= 'z' as u32);
        }
    }
    assert(ascii_lower(ascii_lower(s)) =~= ascii_lower(s));
}

/// `s` with surrounding whitespace removed.
pub fn trim_str(s: &str) -> (r: &str)
    ensures
        r@ == trim(s@),
{
    char_count_fits(s);
    let mut i: usize = 0;
    let mut found = false;
    let mut start: usize = 0;
    let mut end: usize = 0;
    for c in it: s.chars()
        invariant
            i == it.index(),
            it.seq() == s@,
            s@.len() <= usize::MAX,
            !found ==> forall|j: int| 0 <= j < i ==> #[trigger] is_ws(s@[j]),
            found ==> {
                &&& start < end <= i
                &&& !is_ws(s@[start as int])
                &&& !is_ws(s@[end - 1])
                &&& forall|j: int| 0 <= j < start ==> #[trigger] is_ws(s@[j])
                &&& forall|j: int| end <= j < i ==> #[trigger] is_ws(s@[j])
            },
    {
        if !is_whitespace(c) {
            if !found {
                found = true;
                start = i;
            }
            end = i + 1;
        }
        i = i + 1;
    }
    if !found {
        proof {
            lemma_trim_blank(s@);
        }
        s.substring_char(0, 0)
    } else {
        proof {
            lemma_trim_start_at(s@, start as int);
            let t = s@.subrange(start as int, s@.len() as int);
            assert forall|j: int| end - start <= j < t.len() implies #[trigger] is_ws(t[j]) by {
                assert(is_ws(s@[j + start]));
            }
            assert(t[end - start - 1] == s@[end - 1]);
            lemma_trim_end_at(t, end - start);
            assert(t.subrange(0, end - start) =~= s@.subrange(start as int, end as int));
        }
        s.substring_char(start, end)
    }
}

/// ASCII lower-casing of one character.
pub fn to_ascii_lower(c: char) -> (r: char)
    ensures
        r == ascii_lower_char(c),
{
    if 'A' <= c && c <= 'Z' {
        ((c as u8) + 32) as char
    } else {
        c
    }
}

/// The characters of `s`, ASCII-lower-cased.
pub fn ascii_lower_chars(s: &str) -> (r: Vec<char>)
    ensures
        r@ == ascii_lower(s@),
{
    let mut r: Vec<char> = Vec::new();
    for c in it: s.chars()
        invariant
            it.seq() == s@,
            r@ == ascii_lower(s@.take(it.index() as int)),
    {
        proof {
            assert(s@.take(it.index() + 1) =~= s@.take(it.index() as int).push(c));
        }
        r.push(to_ascii_lower(c));
        proof {
            assert(r@ =~= ascii_lower(s@.take(it.index() + 1)));
        }
    }
    proof {
        assert(s@.take(s@.len() as int) =~= s@);
    }
    r
}

/// Whether the characters `cs` spell exactly the text `lit`.
pub fn chars_eq_str(cs: &Vec<char>, lit: &str) -> (b: bool)
    ensures
        b == (cs@ == lit@),
{
    let n = lit.unicode_len();
    if cs.len() != n {
        return false;
    }
    let mut i: usize = 0;
    while i < n
        invariant
            n == lit@.len(),
            cs@.len() == n,
            i <= n,
            forall|j: int| 0 <= j < i ==> cs@[j] == lit@[j],
        decreases n - i,
    {
        if cs[i] != lit.get_char(i) {
            return false;
        }
        i = i + 1;
    }
    proof {
        assert(cs@ =~= lit@);
    }
    true
}

/// Whether two texts are equal.
pub fn str_eq(a: &str, b: &str) -> (r: bool)
    ensures
        r == (a@ == b@),
{
    let mut cs: Vec<char> = Vec::new();
    for c in it: a.chars()
        invariant
            it.seq() == a@,
            cs@ == a@.take(it.index() as int),
    {
        cs.push(c);
        proof {
            assert(cs@ =~= a@.take(it.index() + 1));
        }
    }
    proof {
        assert(a@.take(a@.len() as int) =~= a@);
    }
    chars_eq_str(&cs, b)
}

/// The digit text for `d < 10`.
fn digit(d: u64) -> (s: &'static str)
    requires
        d < 10,
    ensures
        s@ == seq![digit_char(d as nat)],
{
    if d == 0 {
        proof {
            reveal_strlit("0");
        }
        "0"
    } else if d == 1 {
        proof {
            reveal_strlit("1");
        }
        "1"
    } else if d == 2 {
        proof {
            reveal_strlit("2");
        }
        "2"
    } else if d == 3 {
        proof {
            reveal_strlit("3");
        }
        "3"
    } else if d == 4 {
        proof {
            reveal_strlit("4");
        }
        "4"
    } else if d == 5 {
        proof {
            reveal_strlit("5");
        }
        "5"
    } else if d == 6 {
        proof {
            reveal_strlit("6");
        }
        "6"
    } else if d == 7 {
        proof {
            reveal_strlit("7");
        }
        "7"
    } else if d == 8 {
        proof {
            reveal_strlit("8");
        }
        "8"
    } else {
        proof {
            reveal_strlit("9");
        }
        "9"
    }
}

/// Appends the decimal rendering of `n` to `out`.
fn push_decimal(n: u64, out: &mut String)
    ensures
        final(out)@ == old(out)@ + decimal(n as nat),
    decreases n,
{
    if n >= 10 {
        push_decimal(n / 10, out);
    }
    out.append(digit(n % 10));
    proof {
        if n < 10 {
            assert(decimal(n as nat) == seq![digit_char(n as nat)]);
        }
        assert(out@ =~= old(out)@ + decimal(n as nat));
    }
}

/// The decimal rendering of `n`.
pub fn decimal_string(n: u64) -> (r: String)
    ensures
        r@ == decimal(n as nat),
{
    let mut s = String::new();
    push_decimal(n, &mut s);
    assert(s@ =~= decimal(n as nat));
    s
}

/// The strings `parts` joined by `sep`.
pub fn join_strings(parts: &Vec<String>, sep: &str) -> (r: String)
    ensures
        r@ == join(views(parts@), sep@),
{
    let mut res = String::new();
    let n = parts.len();
    let mut i: usize = 0;
    while i < n
        invariant
            n == parts@.len(),
            i <= n,
            res@ == join(views(parts@).take(i as int), sep@),
        decreases n - i,
    {
        let ghost before = views(parts@).take(i as int);
        let ghost after = views(parts@).take(i + 1);
        proof {
            assert(after.drop_last() =~= before);
            assert(after.last() == parts@[i as int]@);
        }
        if i > 0 {
            res.append(sep);
        }
        res.append(parts[i].as_str());
        i = i + 1;
    }
    proof {
        assert(views(parts@).take(n as int) =~= views(parts@));
    }
    res
}

} // verus!
