//! The order in which BM25 hits are reported: by descending score, ties broken
//! by ascending document id, so that the same hits always come out in the same
//! order.
//!
//! A hit is held as a pair `(score_key, doc_id)`, where `score_key` is an
//! unsigned integer that orders as the score does (a higher key for a higher
//! score, equal keys for equal scores), made by [`score_key`] from the bits
//! of the IEEE-754 single-precision score.

use vstd::prelude::*;

use vstd::relations::sorted_by;
use vstd::seq_lib::{group_to_multiset_ensures, lemma_sorted_unique, to_multiset_build};

verus! {

/// The rank of the IEEE-754 single-precision value with bit pattern `bits`:
/// its sign applied to the 31 bits below the sign bit. For every value that
/// is not a NaN this orders as the value itself does (the bits below the
/// sign grow with the magnitude), and the two zeros have the same rank, as
/// they compare equal.
pub open spec fn float_rank(bits: u32) -> int {
    if bits >= 0x8000_0000 {
        -((bits - 0x8000_0000) as int)
    } else {
        bits as int
    }
}

/// The integer key of the score with bit pattern `bits`: its rank shifted to
/// be positive.
pub open spec fn key_of(bits: u32) -> int {
    0x8000_0000 + float_rank(bits)
}

/// The key of the score with bit pattern `bits`.
pub fn score_key(bits: u32) -> (k: u32)
    ensures
        k == key_of(bits),
{
    if bits >= 0x8000_0000 {
        0x8000_0000 - (bits - 0x8000_0000)
    } else {
        0x8000_0000 + bits
    }
}

/// The bit pattern of the score with key `key`, the inverse of [`key_of`]
/// (rank zero gives the zero of positive sign). No key is zero; it is given
/// a NaN pattern.
pub open spec fn bits_of_key(key: u32) -> u32 {
    if key >= 0x8000_0000 {
        (key - 0x8000_0000) as u32
    } else if key == 0 {
        0xffff_ffff
    } else {
        (0x8000_0000 + (0x8000_0000 - key)) as u32
    }
}

/// The bit pattern of the score with key `key`.
pub fn score_bits(key: u32) -> (bits: u32)
    ensures
        bits == bits_of_key(key),
        key >= 1 ==> key_of(bits) == key,
{
    if key >= 0x8000_0000 {
        key - 0x8000_0000
    } else if key == 0 {
        0xffff_ffff
    } else {
        0x8000_0000 + (0x8000_0000 - key)
    }
}

/// Score keys order as the scores: a key is below another exactly when its
/// score ranks below, keys are equal exactly when the scores rank equal
/// (the two zeros among them), and every key is a positive `u32`.
pub proof fn lemma_score_key_orders(a: u32, b: u32)
    ensures
        key_of(a) < key_of(b) <==> float_rank(a) < float_rank(b),
        key_of(a) == key_of(b) <==> float_rank(a) == float_rank(b),
        1 <= key_of(a) <= u32::MAX,
        key_of(0) == key_of(0x8000_0000),
{
}

/// Whether hit `a` may be reported before hit `b`: a higher score first, and
/// among equal scores the lower document id first.
pub open spec fn ranks_before(a: (u32, i64), b: (u32, i64)) -> bool {
    a.0 > b.0 || (a.0 == b.0 && a.1 <= b.1)
}

/// `ranks_before` as a relation.
pub open spec fn hit_order() -> spec_fn((u32, i64), (u32, i64)) -> bool {
    |a: (u32, i64), b: (u32, i64)| ranks_before(a, b)
}

/// The hits in reporting order.
pub open spec fn ranking(hits: Seq<(u32, i64)>) -> Seq<(u32, i64)> {
    hits.sort_by(hit_order())
}

/// Whether `a` goes before `b` in the report.
fn goes_before(a: (u32, i64), b: (u32, i64)) -> (r: bool)
    ensures
        r == ranks_before(a, b),
{
    a.0 > b.0 || (a.0 == b.0 && a.1 <= b.1)
}

/// Inserting `x` anywhere in a sequence adds one `x` to its multiset.
proof fn lemma_insert_to_multiset(s: Seq<(u32, i64)>, j: int, x: (u32, i64))
    requires
        0 <= j <= s.len(),
    ensures
        s.insert(j, x).to_multiset() =~= s.to_multiset().insert(x),
{
    broadcast use group_to_multiset_ensures;

    let t = s.insert(j, x);
    assert(t.remove(j) =~= s);
    assert(t.to_multiset().remove(x) =~= s.to_multiset());
    assert(t.contains(x)) by {
        assert(t[j] == x);
    }
    assert(t.to_multiset().count(x) > 0);
}

/// Puts the hits in reporting order: by descending score key, ties by
/// ascending document id. The result holds the same hits, each as often.
pub fn rank_hits(hits: Vec<(u32, i64)>) -> (r: Vec<(u32, i64)>)
    ensures
        sorted_by(r@, hit_order()),
        r@.to_multiset() =~= hits@.to_multiset(),
        r@ == ranking(hits@),
{
    broadcast use group_to_multiset_ensures;

    let ghost leq = hit_order();
    let mut out: Vec<(u32, i64)> = Vec::new();
    let n = hits.len();
    let mut i: usize = 0;
    assert(hits@.take(0) =~= out@);
    while i < n
        invariant
            n == hits@.len(),
            i <= n,
            leq == hit_order(),
            sorted_by(out@, leq),
            out@.to_multiset() =~= hits@.take(i as int).to_multiset(),
        decreases n - i,
    {
        let h = hits[i];
        let mut j: usize = 0;
        while j < out.len() && goes_before(out[j], h)
            invariant
                j <= out@.len(),
                leq == hit_order(),
                sorted_by(out@, leq),
                forall|k: int| 0 <= k < j ==> ranks_before(#[trigger] out@[k], h),
            decreases out@.len() - j,
        {
            j = j + 1;
        }
        proof {
            // Everything from `j` on comes after `h`.
            assert forall|k: int| j <= k < out@.len() implies ranks_before(h, #[trigger] out@[k]) by {
                assert(!ranks_before(out@[j as int], h));
                assert(ranks_before(out@[j as int], out@[k]) || j == k) by {
                    if j < k {
                        assert(leq(out@[j as int], out@[k]));
                    }
                }
            }
            lemma_insert_to_multiset(out@, j as int, h);
            assert(hits@.take(i + 1) =~= hits@.take(i as int).push(h));
        }
        let ghost before = out@;
        out.insert(j, h);
        proof {
            assert(out@ =~= before.insert(j as int, h));
            assert(out@.to_multiset() =~= hits@.take(i + 1).to_multiset()) by {
                to_multiset_build(hits@.take(i as int), h);
            }
            assert forall|a: int, b: int| 0 <= a < b < out@.len() implies #[trigger] leq(
                out@[a],
                out@[b],
            ) by {
                if b < j {
                    assert(leq(before[a], before[b]));
                } else if a < j && b == j {
                } else if a < j {
                    assert(leq(before[a], before[b - 1]));
                } else if a == j {
                } else {
                    assert(leq(before[a - 1], before[b - 1]));
                }
            }
        }
        i = i + 1;
    }
    proof {
        assert(hits@.take(n as int) =~= hits@);
        hits@.lemma_sort_by_ensures(leq);
        lemma_sorted_unique(out@, hits@.sort_by(leq), leq);
    }
    out
}

/// The report does not depend on the order in which the engine handed the
/// hits over: two collections of the same hits are reported identically.
pub proof fn lemma_ranking_ignores_arrival_order(a: Seq<(u32, i64)>, b: Seq<(u32, i64)>)
    requires
        a.to_multiset() == b.to_multiset(),
    ensures
        ranking(a) == ranking(b),
{
    a.lemma_sort_by_ensures(hit_order());
    b.lemma_sort_by_ensures(hit_order());
    lemma_sorted_unique(ranking(a), ranking(b), hit_order());
}

/// A reported hit never has a higher score key than one reported before it,
/// and hits with equal keys come by ascending document id.
pub proof fn lemma_ranking_orders_by_score_then_id(hits: Seq<(u32, i64)>, i: int, j: int)
    requires
        0 <= i < j < ranking(hits).len(),
    ensures
        ranking(hits)[i].0 >= ranking(hits)[j].0,
        ranking(hits)[i].0 == ranking(hits)[j].0 ==> ranking(hits)[i].1 <= ranking(hits)[j].1,
{
    hits.lemma_sort_by_ensures(hit_order());
    assert(hit_order()(ranking(hits)[i], ranking(hits)[j]));
}

} // verus!
