use tantivy_worker::ranking::rank_hits;
use tantivy_worker::table::Bm25Producer;

#[test]
fn hits_come_by_descending_score_then_ascending_id() {
    let ranked = rank_hits(vec![(5, 3), (9, 1), (5, 2), (9, -4), (0, 0)]);
    assert_eq!(ranked, vec![(9, -4), (9, 1), (5, 2), (5, 3), (0, 0)]);
}

#[test]
fn ranking_keeps_every_hit() {
    assert_eq!(rank_hits(Vec::new()), Vec::<(u32, i64)>::new());
    assert_eq!(rank_hits(vec![(1, 1), (1, 1), (2, 0)]), vec![(2, 0), (1, 1), (1, 1)]);
}

#[test]
fn ranking_ignores_arrival_order() {
    let a = rank_hits(vec![(3, 7), (3, 1), (u32::MAX, 9), (0, i64::MIN)]);
    let b = rank_hits(vec![(0, i64::MIN), (u32::MAX, 9), (3, 1), (3, 7)]);
    assert_eq!(a, b);
    assert_eq!(a, vec![(u32::MAX, 9), (3, 1), (3, 7), (0, i64::MIN)]);
}

#[test]
fn bm25_rows_come_in_one_batch() {
    let mut p = Bm25Producer::new(vec![(4, 2), (1, 0)]);
    assert_eq!(p.next_batch(), Some(vec![(4, 2), (1, 0)]));
    assert_eq!(p.next_batch(), None);
    let mut empty = Bm25Producer::new(Vec::new());
    assert_eq!(empty.next_batch(), Some(Vec::new()));
    assert_eq!(empty.next_batch(), None);
}
