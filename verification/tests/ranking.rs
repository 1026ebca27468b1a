use std::cmp::Ordering;

use model_daemon::ranking::{rank_hits, AnnHit, ParsedDocId, VectorSearchResult};
use model_daemon::score::Score;

fn score(value: f32) -> Score {
    Score {
        bits: value.to_bits(),
    }
}

fn hit(message_id: u64, chunk_idx: u64, value: f32) -> AnnHit {
    AnnHit {
        matches: true,
        parsed: Some(ParsedDocId {
            message_id,
            chunk_idx,
        }),
        score: score(value),
    }
}

fn result(message_id: u64, chunk_idx: u64, value: f32) -> VectorSearchResult {
    VectorSearchResult {
        message_id,
        chunk_idx,
        score: score(value),
    }
}

#[test]
fn score_comparisons_agree_with_floating_point() {
    let values = [
        f32::NAN,
        -f32::NAN,
        f32::INFINITY,
        f32::NEG_INFINITY,
        0.0,
        -0.0,
        1.0,
        -1.0,
        0.5,
        -0.5,
        f32::MIN_POSITIVE,
        -f32::MIN_POSITIVE,
        f32::MAX,
        f32::MIN,
        f32::from_bits(1),
        f32::from_bits(0x8000_0001),
        f32::from_bits(0x7f80_0001),
        f32::from_bits(0xffff_ffff),
    ];
    for a in values {
        for b in values {
            assert_eq!(score(a).exceeds(score(b)), a > b);
            assert_eq!(
                score(a).above(score(b)),
                a.total_cmp(&b) == Ordering::Greater
            );
        }
    }
}

#[test]
fn best_chunk_of_each_message_comes_first() {
    let hits = vec![
        hit(1, 0, 0.3),
        hit(2, 0, 0.8),
        hit(1, 1, 0.9),
        hit(2, 1, 0.1),
        hit(3, 4, 0.5),
    ];
    assert_eq!(
        rank_hits(&hits, true, 10),
        vec![result(1, 1, 0.9), result(2, 0, 0.8), result(3, 4, 0.5)]
    );
}

#[test]
fn equal_scores_are_ordered_by_message() {
    let hits = vec![hit(9, 0, 0.5), hit(2, 0, 0.5), hit(5, 0, 0.5)];
    assert_eq!(
        rank_hits(&hits, true, 10),
        vec![result(2, 0, 0.5), result(5, 0, 0.5), result(9, 0, 0.5)]
    );
}

#[test]
fn first_of_equally_good_chunks_stays() {
    let hits = vec![hit(1, 7, 0.5), hit(1, 8, 0.5)];
    assert_eq!(rank_hits(&hits, true, 10), vec![result(1, 7, 0.5)]);
}

#[test]
fn zero_does_not_replace_negative_zero() {
    let hits = vec![hit(1, 7, -0.0), hit(1, 8, 0.0)];
    assert_eq!(rank_hits(&hits, true, 10), vec![result(1, 7, -0.0)]);
}

#[test]
fn no_number_is_never_replaced() {
    let hits = vec![hit(1, 0, f32::NAN), hit(1, 1, 2.0), hit(2, 0, 1.0)];
    assert_eq!(
        rank_hits(&hits, true, 10),
        vec![result(1, 0, f32::NAN), result(2, 0, 1.0)]
    );
}

#[test]
fn limit_keeps_the_best() {
    let hits = vec![hit(1, 0, 0.1), hit(2, 0, 0.2), hit(3, 0, 0.3), hit(4, 0, 0.4)];
    assert_eq!(
        rank_hits(&hits, true, 2),
        vec![result(4, 0, 0.4), result(3, 0, 0.3)]
    );
    assert_eq!(rank_hits(&hits, true, 0), vec![]);
    let all = rank_hits(&hits, true, 4);
    assert_eq!(rank_hits(&hits, true, 3), all[..3].to_vec());
}

#[test]
fn filter_and_unparsed_ids_leave_hits_out() {
    let mut filtered = hit(1, 0, 0.9);
    filtered.matches = false;
    let mut unparsed = hit(2, 0, 0.8);
    unparsed.parsed = None;
    let hits = vec![filtered, unparsed, hit(3, 0, 0.1)];
    assert_eq!(rank_hits(&hits, false, 10), vec![result(3, 0, 0.1)]);
    assert_eq!(
        rank_hits(&hits, true, 10),
        vec![result(1, 0, 0.9), result(3, 0, 0.1)]
    );
    assert_eq!(rank_hits(&Vec::new(), true, 10), vec![]);
}

#[test]
fn many_hits_come_out_in_order() {
    let mut hits = Vec::new();
    for i in 0..500u64 {
        hits.push(hit(i % 97, i, ((i * 7919) % 101) as f32));
    }
    let ranked = rank_hits(&hits, false, 1000);
    assert_eq!(ranked.len(), 97);
    for pair in ranked.windows(2) {
        let a = f32::from_bits(pair[0].score.bits);
        let b = f32::from_bits(pair[1].score.bits);
        assert!(a > b || (a == b && pair[0].message_id < pair[1].message_id));
    }
    for best in &ranked {
        for other in &hits {
            if other.parsed.unwrap().message_id == best.message_id {
                assert!(f32::from_bits(other.score.bits) <= f32::from_bits(best.score.bits));
            }
        }
    }
}
