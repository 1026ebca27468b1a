//! From the raw hits of an approximate search to a ranking with one result per
//! message.

use std::collections::HashMap;

use vstd::prelude::*;

use crate::score::Score;

verus! {

/// What a semantic document id names: a chunk of a message.
#[derive(Clone, Copy, Debug, PartialEq, Eq, Structural)]
pub struct ParsedDocId {
    pub message_id: u64,
    pub chunk_idx: u64,
}

/// One hit of the approximate search: what the filter says of its document id,
/// what the id names where it can be parsed, and the similarity score.
#[derive(Clone, Copy, Debug, PartialEq, Eq, Structural)]
pub struct AnnHit {
    pub matches: bool,
    pub parsed: Option<ParsedDocId>,
    pub score: Score,
}

/// The best chunk found of one message.
#[derive(Clone, Copy, Debug, PartialEq, Eq, Structural)]
pub struct VectorSearchResult {
    pub message_id: u64,
    pub chunk_idx: u64,
    pub score: Score,
}

/// Whether a hit counts: the filter lets it through, and its id can be parsed.
pub open spec fn admitted(hit: AnnHit, unrestricted: bool) -> bool {
    (unrestricted || hit.matches) && hit.parsed is Some
}

/// An admitted hit as a result.
pub open spec fn as_result(hit: AnnHit) -> VectorSearchResult {
    VectorSearchResult {
        message_id: hit.parsed->0.message_id,
        chunk_idx: hit.parsed->0.chunk_idx,
        score: hit.score,
    }
}

/// Whether a hit counts for the given message.
pub open spec fn hit_of(hit: AnnHit, unrestricted: bool, message_id: u64) -> bool {
    admitted(hit, unrestricted) && hit.parsed->0.message_id == message_id
}

/// What the hits leave of one message: its first hit, given up for a later one
/// each time that one's score is numerically greater.
pub open spec fn best_hit(
    hits: Seq<AnnHit>,
    unrestricted: bool,
    message_id: u64,
) -> Option<VectorSearchResult>
    decreases hits.len(),
{
    if hits.len() == 0 {
        None
    } else {
        let earlier = best_hit(hits.drop_last(), unrestricted, message_id);
        let hit = hits.last();
        if !hit_of(hit, unrestricted, message_id) {
            earlier
        } else {
            match earlier {
                Some(kept) if !hit.score.greater(kept.score) => earlier,
                _ => Some(as_result(hit)),
            }
        }
    }
}

/// The order of results: the higher score first, by the total order on scores,
/// and at equal scores the smaller message id first.
pub open spec fn ranks_before(a: VectorSearchResult, b: VectorSearchResult) -> bool {
    ||| a.score.place() > b.score.place()
    ||| a.score.place() == b.score.place() && a.message_id < b.message_id
}

/// Every result ranks strictly before the ones behind it.
pub open spec fn in_rank_order(results: Seq<VectorSearchResult>) -> bool {
    forall|i: int, j: int|
        0 <= i < j < results.len() ==> ranks_before(#[trigger] results[i], #[trigger] results[j])
}

/// Whether `results` are the first `limit` of the best hits of all messages, in
/// rank order: each is the best hit of its message, and a best hit is left out
/// only behind `limit` better ones.
pub open spec fn is_ranking(
    hits: Seq<AnnHit>,
    unrestricted: bool,
    limit: nat,
    results: Seq<VectorSearchResult>,
) -> bool {
    &&& results.len() <= limit
    &&& in_rank_order(results)
    &&& forall|i: int|
        0 <= i < results.len() ==> best_hit(
            hits,
            unrestricted,
            (#[trigger] results[i]).message_id,
        ) == Some(results[i])
    &&& forall|message_id: u64|
        (#[trigger] best_hit(hits, unrestricted, message_id)) is Some ==> {
            let best = best_hit(hits, unrestricted, message_id)->0;
            results.contains(best) || (results.len() == limit && ranks_behind_all(best, results))
        }
}

/// Whether every one of `results` ranks before `r`.
pub open spec fn ranks_behind_all(
    r: VectorSearchResult,
    results: Seq<VectorSearchResult>,
) -> bool {
    forall|i: int| 0 <= i < results.len() ==> ranks_before(#[trigger] results[i], r)
}

/// The best hit of each message that has one, in no stated order.
fn collect_best(hits: &Vec<AnnHit>, unrestricted: bool) -> (found: Vec<VectorSearchResult>)
    ensures
        forall|i: int|
            0 <= i < found.len() ==> best_hit(
                hits@,
                unrestricted,
                (#[trigger] found@[i]).message_id,
            ) == Some(found@[i]),
        forall|i: int, j: int|
            0 <= i < j < found.len() ==> (#[trigger] found@[i]).message_id != (
            #[trigger] found@[j]).message_id,
        forall|message_id: u64|
            (#[trigger] best_hit(hits@, unrestricted, message_id)) is Some ==> found@.contains(
                best_hit(hits@, unrestricted, message_id)->0,
            ),
{
    broadcast use vstd::std_specs::hash::group_hash_axioms;

    let mut found: Vec<VectorSearchResult> = Vec::new();
    let mut position: HashMap<u64, usize> = HashMap::new();
    let mut next: usize = 0;
    assert(hits@.take(0) =~= Seq::<AnnHit>::empty());
    while next < hits.len()
        invariant
            next <= hits.len(),
            forall|i: int|
                0 <= i < found.len() ==> position@.contains_key((#[trigger] found@[i]).message_id)
                    && position@[found@[i].message_id] == i,
            forall|m: u64| #[trigger]
                position@.contains_key(m) ==> position@[m] < found.len()
                    && found@[position@[m] as int].message_id == m,
            forall|m: u64|
                #![trigger best_hit(hits@.take(next as int), unrestricted, m)]
                #![trigger position@.contains_key(m)]
                best_hit(hits@.take(next as int), unrestricted, m) == if position@.contains_key(m) {
                    Some(found@[position@[m] as int])
                } else {
                    None
                },
        decreases hits.len() - next,
    {
        broadcast use vstd::std_specs::hash::group_hash_axioms;

        let hit = hits[next];
        let ghost before = hits@.take(next as int);
        let ghost after = hits@.take(next + 1);
        proof {
            assert(after.drop_last() =~= before);
            assert(after.last() == hit);
        }
        let ghost found_before = found@;
        let ghost position_before = position@;
        if unrestricted || hit.matches {
            if let Some(parsed) = hit.parsed {
                let result = VectorSearchResult {
                    message_id: parsed.message_id,
                    chunk_idx: parsed.chunk_idx,
                    score: hit.score,
                };
                match position.get(&parsed.message_id) {
                    Some(at) => {
                        let at: usize = *at;
                        if hit.score.exceeds(found[at].score) {
                            found.set(at, result);
                        }
                    },
                    None => {
                        position.insert(parsed.message_id, found.len());
                        found.push(result);
                    },
                }
            }
        }
        assert forall|m: u64|
            best_hit(after, unrestricted, m) == if position@.contains_key(m) {
                Some(found@[position@[m] as int])
            } else {
                None
            } by {
            assert(best_hit(before, unrestricted, m) == if position_before.contains_key(m) {
                Some(found_before[position_before[m] as int])
            } else {
                None
            });
            if hit_of(hit, unrestricted, m) {
                assert(as_result(hit).message_id == m);
            }
        }
        next += 1;
    }
    assert(hits@.take(hits.len() as int) =~= hits@);
    assert forall|message_id: u64|
        (#[trigger] best_hit(hits@, unrestricted, message_id)) is Some implies found@.contains(
        best_hit(hits@, unrestricted, message_id)->0,
    ) by {
        assert(position@.contains_key(message_id));
        let at = position@[message_id] as int;
        assert(found@[at] == best_hit(hits@, unrestricted, message_id)->0);
    }
    found
}

/// Whether `a` ranks before `b`.
fn precedes(a: &VectorSearchResult, b: &VectorSearchResult) -> (r: bool)
    ensures
        r == ranks_before(*a, *b),
{
    if a.score.above(b.score) {
        true
    } else if b.score.above(a.score) {
        false
    } else {
        a.message_id < b.message_id
    }
}

/// Merges two runs in rank order that share no message.
fn merge(a: &Vec<VectorSearchResult>, b: &Vec<VectorSearchResult>) -> (merged: Vec<
    VectorSearchResult,
>)
    requires
        in_rank_order(a@),
        in_rank_order(b@),
        forall|i: int, j: int|
            0 <= i < a.len() && 0 <= j < b.len() ==> (#[trigger] a@[i]).message_id != (
            #[trigger] b@[j]).message_id,
    ensures
        in_rank_order(merged@),
        forall|r: VectorSearchResult| #[trigger]
            merged@.contains(r) <==> a@.contains(r) || b@.contains(r),
{
    let mut merged: Vec<VectorSearchResult> = Vec::new();
    let mut i: usize = 0;
    let mut j: usize = 0;
    while i < a.len() || j < b.len()
        invariant
            i <= a.len(),
            j <= b.len(),
            in_rank_order(a@),
            in_rank_order(b@),
            forall|k: int, l: int|
                0 <= k < a.len() && 0 <= l < b.len() ==> (#[trigger] a@[k]).message_id != (
                #[trigger] b@[l]).message_id,
            in_rank_order(merged@),
            forall|k: int| i <= k < a.len() ==> ranks_behind_all(#[trigger] a@[k], merged@),
            forall|l: int| j <= l < b.len() ==> ranks_behind_all(#[trigger] b@[l], merged@),
            forall|k: int| 0 <= k < i ==> merged@.contains(#[trigger] a@[k]),
            forall|l: int| 0 <= l < j ==> merged@.contains(#[trigger] b@[l]),
            forall|k: int|
                0 <= k < merged.len() ==> a@.contains(#[trigger] merged@[k]) || b@.contains(
                    merged@[k],
                ),
        decreases a.len() - i + b.len() - j,
    {
        let ghost before = merged@;
        let from_a = if i == a.len() {
            false
        } else if j == b.len() {
            true
        } else {
            precedes(&a[i], &b[j])
        };
        if from_a {
            merged.push(a[i]);
            i += 1;
        } else {
            merged.push(b[j]);
            j += 1;
        }
        assert(merged@[before.len() as int] == merged@.last());
        assert(forall|k: int| 0 <= k < before.len() ==> merged@[k] == #[trigger] before[k]);
        assert forall|r: VectorSearchResult| before.contains(r) implies merged@.contains(r) by {
            let k = choose|k: int| 0 <= k < before.len() && before[k] == r;
            assert(merged@[k] == r);
        }
    }
    assert forall|r: VectorSearchResult| #[trigger] merged@.contains(r) implies a@.contains(r)
        || b@.contains(r) by {
        let k = choose|k: int| 0 <= k < merged.len() && merged@[k] == r;
        assert(a@.contains(merged@[k]) || b@.contains(merged@[k]));
    }
    merged
}

/// The results from `from` up to `to`, no two of one message, in rank order.
fn sort_range(results: &Vec<VectorSearchResult>, from: usize, to: usize) -> (sorted: Vec<
    VectorSearchResult,
>)
    requires
        from <= to <= results.len(),
        forall|i: int, j: int|
            0 <= i < j < results.len() ==> (#[trigger] results@[i]).message_id != (
            #[trigger] results@[j]).message_id,
    ensures
        in_rank_order(sorted@),
        forall|r: VectorSearchResult| #[trigger]
            sorted@.contains(r) <==> exists|k: int| from <= k < to && results@[k] == r,
    decreases to - from,
{
    if from == to {
        Vec::new()
    } else if to - from == 1 {
        let mut single: Vec<VectorSearchResult> = Vec::new();
        single.push(results[from]);
        assert(single@[0] == results@[from as int]);
        single
    } else {
        let middle: usize = from + (to - from) / 2;
        let left = sort_range(results, from, middle);
        let right = sort_range(results, middle, to);
        assert forall|i: int, j: int| 0 <= i < left.len() && 0 <= j < right.len() implies (
        #[trigger] left@[i]).message_id != (#[trigger] right@[j]).message_id by {
            assert(left@.contains(left@[i]));
            assert(right@.contains(right@[j]));
            let k = choose|k: int| from <= k < middle && results@[k] == left@[i];
            let l = choose|l: int| middle <= l < to && results@[l] == right@[j];
            assert(results@[k].message_id != results@[l].message_id);
        }
        let sorted = merge(&left, &right);
        assert forall|r: VectorSearchResult| #[trigger]
            sorted@.contains(r) <==> exists|k: int| from <= k < to && results@[k] == r by {
            if exists|k: int| from <= k < to && results@[k] == r {
                let k = choose|k: int| from <= k < to && results@[k] == r;
                if k < middle {
                    assert(left@.contains(r));
                } else {
                    assert(right@.contains(r));
                }
            }
        }
        sorted
    }
}

/// The ranking of the hits that the filter lets through and whose ids can be
/// parsed: the best hit of each message, the best first, at most `limit`.
pub fn rank_hits(hits: &Vec<AnnHit>, unrestricted: bool, limit: usize) -> (results: Vec<
    VectorSearchResult,
>)
    ensures
        is_ranking(hits@, unrestricted, limit as nat, results@),
{
    let found = collect_best(hits, unrestricted);
    let mut results = sort_range(&found, 0, found.len());
    let ghost sorted = results@;
    assert forall|r: VectorSearchResult| sorted.contains(r) <==> found@.contains(r) by {
        if found@.contains(r) {
            let k = choose|k: int| 0 <= k < found.len() && found@[k] == r;
            assert(0 <= k < found.len() && found@[k] == r);
        }
    }
    assert forall|i: int| 0 <= i < sorted.len() implies best_hit(
        hits@,
        unrestricted,
        (#[trigger] sorted[i]).message_id,
    ) == Some(sorted[i]) by {
        assert(sorted.contains(sorted[i]));
    }
    if results.len() > limit {
        results.truncate(limit);
    }
    assert forall|message_id: u64|
        (#[trigger] best_hit(hits@, unrestricted, message_id)) is Some implies {
        let best = best_hit(hits@, unrestricted, message_id)->0;
        results@.contains(best) || (results.len() == limit && ranks_behind_all(best, results@))
    } by {
        let best = best_hit(hits@, unrestricted, message_id)->0;
        assert(sorted.contains(best));
        let k = choose|k: int| 0 <= k < sorted.len() && sorted[k] == best;
        if k < results.len() {
            assert(results@[k] == best);
        }
    }
    results
}

/// The best hit of a message is one of its hits.
pub proof fn best_hit_is_a_hit(hits: Seq<AnnHit>, unrestricted: bool, message_id: u64)
    ensures
        best_hit(hits, unrestricted, message_id) is Some ==> exists|i: int|
            0 <= i < hits.len() && hit_of(#[trigger] hits[i], unrestricted, message_id)
                && best_hit(hits, unrestricted, message_id) == Some(as_result(hits[i])),
    decreases hits.len(),
{
    if hits.len() > 0 {
        let earlier = hits.drop_last();
        best_hit_is_a_hit(earlier, unrestricted, message_id);
        let best = best_hit(hits, unrestricted, message_id);
        if best == best_hit(earlier, unrestricted, message_id) && best is Some {
            let i = choose|i: int|
                0 <= i < earlier.len() && hit_of(#[trigger] earlier[i], unrestricted, message_id)
                    && best == Some(as_result(earlier[i]));
            assert(hits[i] == earlier[i]);
        } else if best is Some {
            assert(hits[hits.len() - 1] == hits.last());
        }
    }
}

/// A message with a hit that counts has a best hit, and no hit of it that
/// counts has a numerically greater score.
pub proof fn best_hit_is_unexceeded(hits: Seq<AnnHit>, unrestricted: bool, message_id: u64, i: int)
    requires
        0 <= i < hits.len(),
        hit_of(hits[i], unrestricted, message_id),
    ensures
        best_hit(hits, unrestricted, message_id) is Some,
        !hits[i].score.greater(best_hit(hits, unrestricted, message_id)->0.score),
    decreases hits.len(),
{
    if i < hits.len() - 1 {
        assert(hits.drop_last()[i] == hits[i]);
        best_hit_is_unexceeded(hits.drop_last(), unrestricted, message_id, i);
    }
}

/// A ranking holds at most one result of each message.
pub proof fn ranking_names_each_message_once(
    hits: Seq<AnnHit>,
    unrestricted: bool,
    limit: nat,
    results: Seq<VectorSearchResult>,
    i: int,
    j: int,
)
    requires
        is_ranking(hits, unrestricted, limit, results),
        0 <= i < j < results.len(),
    ensures
        results[i].message_id != results[j].message_id,
{
    assert(ranks_before(results[i], results[j]));
}

/// Every result of a ranking is a hit that counts.
pub proof fn ranking_holds_only_hits(
    hits: Seq<AnnHit>,
    unrestricted: bool,
    limit: nat,
    results: Seq<VectorSearchResult>,
    k: int,
)
    requires
        is_ranking(hits, unrestricted, limit, results),
        0 <= k < results.len(),
    ensures
        exists|i: int|
            0 <= i < hits.len() && admitted(#[trigger] hits[i], unrestricted) && as_result(hits[i])
                == results[k],
{
    best_hit_is_a_hit(hits, unrestricted, results[k].message_id);
}

/// With room for all, a ranking holds a result of every message that has a hit
/// that counts.
pub proof fn ranking_leaves_out_no_message_with_room(
    hits: Seq<AnnHit>,
    unrestricted: bool,
    limit: nat,
    results: Seq<VectorSearchResult>,
    i: int,
)
    requires
        is_ranking(hits, unrestricted, limit, results),
        results.len() < limit,
        0 <= i < hits.len(),
        admitted(hits[i], unrestricted),
    ensures
        exists|k: int|
            0 <= k < results.len() && (#[trigger] results[k]).message_id
                == hits[i].parsed->0.message_id,
{
    let message_id = hits[i].parsed->0.message_id;
    best_hit_is_unexceeded(hits, unrestricted, message_id, i);
    best_hit_is_a_hit(hits, unrestricted, message_id);
    let best = best_hit(hits, unrestricted, message_id)->0;
    let k = choose|k: int| 0 <= k < results.len() && results[k] == best;
    assert(results[k].message_id == message_id);
}

/// Hits, filter and limit leave one ranking only: two rankings of the same hits
/// are the same.
pub proof fn ranking_is_unique(
    hits: Seq<AnnHit>,
    unrestricted: bool,
    limit: nat,
    a: Seq<VectorSearchResult>,
    b: Seq<VectorSearchResult>,
)
    requires
        is_ranking(hits, unrestricted, limit, a),
        is_ranking(hits, unrestricted, limit, b),
    ensures
        a == b,
{
    rankings_agree_up_to(hits, unrestricted, limit, a, b, a.len());
    rankings_agree_up_to(hits, unrestricted, limit, b, a, b.len());
    assert(a =~= b);
}

/// The first `n` results of one ranking are those of any other.
proof fn rankings_agree_up_to(
    hits: Seq<AnnHit>,
    unrestricted: bool,
    limit: nat,
    a: Seq<VectorSearchResult>,
    b: Seq<VectorSearchResult>,
    n: nat,
)
    requires
        is_ranking(hits, unrestricted, limit, a),
        is_ranking(hits, unrestricted, limit, b),
        n <= a.len(),
    ensures
        n <= b.len(),
        forall|k: int| 0 <= k < n ==> #[trigger] a[k] == b[k],
    decreases n,
{
    if n > 0 {
        let last = n - 1;
        rankings_agree_up_to(hits, unrestricted, limit, a, b, last as nat);
        let r = a[last];
        assert(best_hit(hits, unrestricted, r.message_id) == Some(r));
        if b.contains(r) {
            let k = choose|k: int| 0 <= k < b.len() && b[k] == r;
            if k < last {
                assert(a[k] == b[k]);
                assert(ranks_before(a[k], a[last]));
            } else if k > last {
                // Then b[last] ranks before r, and a has no room for it.
                let q = b[last];
                assert(ranks_before(b[last], b[k]));
                assert(best_hit(hits, unrestricted, q.message_id) == Some(q));
                if a.contains(q) {
                    let l = choose|l: int| 0 <= l < a.len() && a[l] == q;
                    if l < last {
                        assert(a[l] == b[l]);
                        assert(ranks_before(b[l], b[last]));
                    } else if l > last {
                        assert(ranks_before(a[last], a[l]));
                    }
                } else {
                    assert(ranks_before(a[last], q));
                }
            }
        } else {
            // Then b is full, with results that all rank before r.
            assert(b.len() == limit);
            assert(last < b.len());
            let q = b[last];
            assert(ranks_before(q, r));
            assert(best_hit(hits, unrestricted, q.message_id) == Some(q));
            if a.contains(q) {
                let l = choose|l: int| 0 <= l < a.len() && a[l] == q;
                if l < last {
                    assert(a[l] == b[l]);
                    assert(ranks_before(b[l], b[last]));
                } else if l > last {
                    assert(ranks_before(a[last], a[l]));
                }
            } else {
                assert(ranks_before(a[last], q));
            }
        }
    }
}

/// A smaller limit gives the beginning of what a larger one gives.
pub proof fn smaller_limit_gives_a_prefix(
    hits: Seq<AnnHit>,
    unrestricted: bool,
    small: nat,
    large: nat,
    a: Seq<VectorSearchResult>,
    b: Seq<VectorSearchResult>,
)
    requires
        small <= large,
        is_ranking(hits, unrestricted, small, a),
        is_ranking(hits, unrestricted, large, b),
    ensures
        a.is_prefix_of(b),
        a.len() == if b.len() < small {
            b.len()
        } else {
            small
        },
{
    let n = if b.len() < small {
        b.len()
    } else {
        small
    };
    let cut = b.take(n as int);
    assert forall|message_id: u64|
        (#[trigger] best_hit(hits, unrestricted, message_id)) is Some implies {
        let best = best_hit(hits, unrestricted, message_id)->0;
        cut.contains(best) || (cut.len() == small && ranks_behind_all(best, cut))
    } by {
        let best = best_hit(hits, unrestricted, message_id)->0;
        if b.contains(best) {
            let k = choose|k: int| 0 <= k < b.len() && b[k] == best;
            if k < n {
                assert(cut[k] == best);
            }
        } else {
            assert(forall|i: int| 0 <= i < cut.len() ==> #[trigger] cut[i] == b[i]);
        }
    }
    ranking_is_unique(hits, unrestricted, small, a, cut);
}

/// An unrestricted filter ranks as one that lets every hit through.
pub proof fn unrestricted_filter_admits_all(
    hits: Seq<AnnHit>,
    restricted: Seq<AnnHit>,
    limit: nat,
    results: Seq<VectorSearchResult>,
)
    requires
        hits.len() == restricted.len(),
        forall|i: int|
            0 <= i < hits.len() ==> (#[trigger] restricted[i]) == (AnnHit {
                matches: true,
                ..hits[i]
            }),
    ensures
        is_ranking(hits, true, limit, results) == is_ranking(restricted, false, limit, results),
{
    assert forall|message_id: u64|
        best_hit(hits, true, message_id) == best_hit(restricted, false, message_id) by {
        unrestricted_best_hit(hits, restricted, message_id);
    }
    assert(forall|message_id: u64| #[trigger]
        best_hit(hits, true, message_id) == best_hit(restricted, false, message_id));
    assert(forall|message_id: u64|
        best_hit(hits, true, message_id) == #[trigger] best_hit(restricted, false, message_id));
}

proof fn unrestricted_best_hit(hits: Seq<AnnHit>, restricted: Seq<AnnHit>, message_id: u64)
    requires
        hits.len() == restricted.len(),
        forall|i: int|
            0 <= i < hits.len() ==> (#[trigger] restricted[i]) == (AnnHit {
                matches: true,
                ..hits[i]
            }),
    ensures
        best_hit(hits, true, message_id) == best_hit(restricted, false, message_id),
    decreases hits.len(),
{
    if hits.len() > 0 {
        assert forall|i: int| 0 <= i < hits.len() - 1 implies (
        #[trigger] restricted.drop_last()[i]) == (AnnHit { matches: true, ..hits.drop_last()[i] }) by {
            assert(restricted[i] == (AnnHit { matches: true, ..hits[i] }));
        }
        unrestricted_best_hit(hits.drop_last(), restricted.drop_last(), message_id);
        assert(restricted[hits.len() - 1] == (AnnHit { matches: true, ..hits[hits.len() - 1] }));
    }
}

/// What is kept of a message is its first best hit: one that the filter lets
/// through and whose id names the message. No such hit has a greater score, and
/// each earlier one has a smaller score or none at all. A first hit without a
/// number for a score is never given up.
pub proof fn best_hit_is_the_first_best(
    hits: Seq<AnnHit>,
    unrestricted: bool,
    message_id: u64,
) -> (at: int)
    requires
        best_hit(hits, unrestricted, message_id) is Some,
    ensures
        0 <= at < hits.len(),
        unrestricted || hits[at].matches,
        hits[at].parsed matches Some(parsed) && parsed.message_id == message_id
            && best_hit(hits, unrestricted, message_id) == Some(
            VectorSearchResult {
                message_id,
                chunk_idx: parsed.chunk_idx,
                score: hits[at].score,
            },
        ),
        forall|j: int|
            0 <= j < hits.len() && (unrestricted || hits[j].matches) && hits[j].parsed is Some
                && hits[j].parsed->0.message_id == message_id ==> !(
            #[trigger] hits[j]).score.greater(hits[at].score),
        forall|j: int|
            0 <= j < at && (unrestricted || hits[j].matches) && hits[j].parsed is Some
                && hits[j].parsed->0.message_id == message_id ==> hits[at].score.greater(
                (#[trigger] hits[j]).score,
            ) || hits[j].score.is_nan(),
        forall|j: int|
            0 <= j < at && (unrestricted || hits[j].matches) && hits[j].parsed is Some
                && hits[j].parsed->0.message_id == message_id && (#[trigger] hits[j]).score.is_nan()
                ==> exists|f: int|
                0 <= f < j && (unrestricted || hits[f].matches) && (
                #[trigger] hits[f]).parsed is Some && hits[f].parsed->0.message_id == message_id,
    decreases hits.len(),
{
    let earlier = hits.drop_last();
    let last = hits.len() - 1;
    let hit = hits.last();
    let kept = best_hit(earlier, unrestricted, message_id);
    if hit_of(hit, unrestricted, message_id) && (kept is None || hit.score.greater(
        kept->0.score,
    )) {
        if kept is None {
            assert forall|j: int| 0 <= j < last implies !hit_of(
                #[trigger] hits[j],
                unrestricted,
                message_id,
            ) by {
                assert(earlier[j] == hits[j]);
                if hit_of(earlier[j], unrestricted, message_id) {
                    best_hit_is_unexceeded(earlier, unrestricted, message_id, j);
                }
            }
        } else {
            let before = best_hit_is_the_first_best(earlier, unrestricted, message_id);
            assert(hits[before] == earlier[before]);
            assert forall|j: int|
                0 <= j < last && hit_of(hits[j], unrestricted, message_id) implies !(
            #[trigger] hits[j]).score.greater(hits[before].score) && (hits[j].score.is_nan()
                ==> exists|f: int|
                0 <= f < j && (unrestricted || hits[f].matches) && (
                #[trigger] hits[f]).parsed is Some && hits[f].parsed->0.message_id == message_id) by {
                assert(earlier[j] == hits[j]);
                if hits[j].score.is_nan() {
                    if j < before {
                        let f = choose|f: int|
                            0 <= f < j && (unrestricted || earlier[f].matches) && (
                            #[trigger] earlier[f]).parsed is Some && earlier[f].parsed->0.message_id
                                == message_id;
                        assert(hits[f] == earlier[f]);
                    } else {
                        assert(hits[before].parsed is Some);
                    }
                }
            }
        }
        last
    } else {
        let at = best_hit_is_the_first_best(earlier, unrestricted, message_id);
        assert(forall|j: int| 0 <= j < last ==> #[trigger] hits[j] == earlier[j]);
        assert forall|j: int|
            0 <= j < at && (unrestricted || hits[j].matches) && hits[j].parsed is Some
                && hits[j].parsed->0.message_id == message_id && (
            #[trigger] hits[j]).score.is_nan() implies exists|f: int|
            0 <= f < j && (unrestricted || hits[f].matches) && (#[trigger] hits[f]).parsed is Some
                && hits[f].parsed->0.message_id == message_id by {
            assert(earlier[j] == hits[j]);
            let f = choose|f: int|
                0 <= f < j && (unrestricted || earlier[f].matches) && (
                #[trigger] earlier[f]).parsed is Some && earlier[f].parsed->0.message_id
                    == message_id;
            assert(hits[f] == earlier[f]);
        }
        at
    }
}

/// Every result of a ranking is the first best hit of its message among those
/// that the filter lets through: it has the message, the chunk and the score of
/// that hit, and no hit of the message that is let through has a greater score.
pub proof fn ranked_result_is_the_best_hit_let_through(
    hits: Seq<AnnHit>,
    unrestricted: bool,
    limit: nat,
    results: Seq<VectorSearchResult>,
    k: int,
) -> (at: int)
    requires
        is_ranking(hits, unrestricted, limit, results),
        0 <= k < results.len(),
    ensures
        0 <= at < hits.len(),
        unrestricted || hits[at].matches,
        hits[at].parsed matches Some(parsed) && parsed.message_id == results[k].message_id
            && parsed.chunk_idx == results[k].chunk_idx,
        hits[at].score.bits == results[k].score.bits,
        forall|j: int|
            0 <= j < hits.len() && (unrestricted || hits[j].matches) && hits[j].parsed is Some
                && hits[j].parsed->0.message_id == results[k].message_id ==> !(
            #[trigger] hits[j]).score.greater(results[k].score),
        forall|j: int|
            0 <= j < at && (unrestricted || hits[j].matches) && hits[j].parsed is Some
                && hits[j].parsed->0.message_id == results[k].message_id
                ==> results[k].score.greater((#[trigger] hits[j]).score)
                || hits[j].score.is_nan(),
        forall|j: int|
            0 <= j < at && (unrestricted || hits[j].matches) && hits[j].parsed is Some
                && hits[j].parsed->0.message_id == results[k].message_id && (
            #[trigger] hits[j]).score.is_nan() ==> exists|f: int|
                0 <= f < j && (unrestricted || hits[f].matches) && (
                #[trigger] hits[f]).parsed is Some && hits[f].parsed->0.message_id
                    == results[k].message_id,
{
    best_hit_is_the_first_best(hits, unrestricted, results[k].message_id)
}

/// The scores of a ranking never rise: no result has a numerically greater score
/// than one before it. By the bits, negative scores come behind positive ones,
/// positive ones go down and negative ones go up; and of two results with one
/// score that of the smaller message id comes first.
pub proof fn ranked_scores_never_rise(
    hits: Seq<AnnHit>,
    unrestricted: bool,
    limit: nat,
    results: Seq<VectorSearchResult>,
    i: int,
    j: int,
)
    requires
        is_ranking(hits, unrestricted, limit, results),
        0 <= i < j < results.len(),
    ensures
        !results[j].score.greater(results[i].score),
        results[i].score.bits < 0x8000_0000 && results[j].score.bits < 0x8000_0000
            ==> results[i].score.bits >= results[j].score.bits,
        results[i].score.bits >= 0x8000_0000 && results[j].score.bits >= 0x8000_0000
            ==> results[i].score.bits <= results[j].score.bits,
        results[i].score.bits >= 0x8000_0000 ==> results[j].score.bits >= 0x8000_0000,
        results[i].score.bits == results[j].score.bits ==> results[i].message_id
            < results[j].message_id,
        results[i].message_id != results[j].message_id,
{
    assert(ranks_before(results[i], results[j]));
}

/// A message with a hit that the filter lets through is left out only behind
/// `limit` others. Then its own best hit, which none of its hits exceeds, stands
/// behind every result: by the order of the bits, and at the same score by the
/// message id. And where the scores of its hits are all numbers, none of them is
/// numerically greater than the score of any result.
pub proof fn left_out_message_is_no_better_than_any_ranked(
    hits: Seq<AnnHit>,
    unrestricted: bool,
    limit: nat,
    results: Seq<VectorSearchResult>,
    i: int,
) -> (at: int)
    requires
        is_ranking(hits, unrestricted, limit, results),
        0 <= i < hits.len(),
        unrestricted || hits[i].matches,
        hits[i].parsed is Some,
        forall|k: int|
            0 <= k < results.len() ==> (#[trigger] results[k]).message_id
                != hits[i].parsed->0.message_id,
    ensures
        results.len() == limit,
        0 <= at < hits.len(),
        unrestricted || hits[at].matches,
        hits[at].parsed is Some && hits[at].parsed->0.message_id == hits[i].parsed->0.message_id,
        forall|j: int|
            0 <= j < hits.len() && (unrestricted || hits[j].matches) && hits[j].parsed is Some
                && hits[j].parsed->0.message_id == hits[i].parsed->0.message_id ==> !(
            #[trigger] hits[j]).score.greater(hits[at].score),
        forall|k: int|
            0 <= k < results.len() ==> {
                let kept = (#[trigger] results[k]).score.bits;
                let cut = hits[at].score.bits;
                &&& kept < 0x8000_0000 && cut < 0x8000_0000 ==> kept >= cut
                &&& kept >= 0x8000_0000 && cut >= 0x8000_0000 ==> kept <= cut
                &&& kept >= 0x8000_0000 ==> cut >= 0x8000_0000
                &&& kept == cut ==> results[k].message_id < hits[i].parsed->0.message_id
            },
        (forall|j: int|
            0 <= j < hits.len() && (unrestricted || hits[j].matches) && hits[j].parsed is Some
                && hits[j].parsed->0.message_id == hits[i].parsed->0.message_id ==> !(
            #[trigger] hits[j]).score.is_nan()) ==> forall|k: int|
            0 <= k < results.len() ==> !hits[i].score.greater((#[trigger] results[k]).score),
{
    let message_id = hits[i].parsed->0.message_id;
    best_hit_is_unexceeded(hits, unrestricted, message_id, i);
    let at = best_hit_is_the_first_best(hits, unrestricted, message_id);
    let best = best_hit(hits, unrestricted, message_id)->0;
    assert(!results.contains(best));
    assert(ranks_behind_all(best, results));
    assert forall|k: int| 0 <= k < results.len() implies ranks_before(
        #[trigger] results[k],
        best,
    ) by {}
    at
}

/// With nothing let through there are no results, and with something let through
/// and a limit above zero there are some.
pub proof fn ranking_is_empty_only_without_hits(
    hits: Seq<AnnHit>,
    unrestricted: bool,
    limit: nat,
    results: Seq<VectorSearchResult>,
)
    requires
        is_ranking(hits, unrestricted, limit, results),
    ensures
        results.len() <= limit,
        results.len() == 0 <==> limit == 0 || forall|i: int|
            0 <= i < hits.len() ==> (#[trigger] hits[i]).parsed is None || !(unrestricted
                || hits[i].matches),
{
    if results.len() > 0 {
        let at = ranked_result_is_the_best_hit_let_through(hits, unrestricted, limit, results, 0);
        assert(hits[at].parsed is Some);
    } else if limit > 0 {
        assert forall|i: int| 0 <= i < hits.len() implies (#[trigger] hits[i]).parsed is None || !(
        unrestricted || hits[i].matches) by {
            if hits[i].parsed is Some && (unrestricted || hits[i].matches) {
                let at = left_out_message_is_no_better_than_any_ranked(
                    hits,
                    unrestricted,
                    limit,
                    results,
                    i,
                );
            }
        }
    }
}

/// A hit that the filter keeps back, or whose id cannot be parsed, has no say: the
/// ranking is the same without it.
pub proof fn hits_kept_back_have_no_say(
    hits: Seq<AnnHit>,
    unrestricted: bool,
    limit: nat,
    results: Seq<VectorSearchResult>,
    i: int,
)
    requires
        0 <= i < hits.len(),
        hits[i].parsed is None || !(unrestricted || hits[i].matches),
    ensures
        is_ranking(hits, unrestricted, limit, results) == is_ranking(
            hits.remove(i),
            unrestricted,
            limit,
            results,
        ),
{
    assert forall|message_id: u64|
        best_hit(hits, unrestricted, message_id) == best_hit(
            hits.remove(i),
            unrestricted,
            message_id,
        ) by {
        best_hit_without(hits, unrestricted, message_id, i);
    }
    assert(forall|message_id: u64| #[trigger]
        best_hit(hits, unrestricted, message_id) == best_hit(
            hits.remove(i),
            unrestricted,
            message_id,
        ));
    assert(forall|message_id: u64|
        best_hit(hits, unrestricted, message_id) == #[trigger] best_hit(
            hits.remove(i),
            unrestricted,
            message_id,
        ));
}

proof fn best_hit_without(hits: Seq<AnnHit>, unrestricted: bool, message_id: u64, i: int)
    requires
        0 <= i < hits.len(),
        !admitted(hits[i], unrestricted),
    ensures
        best_hit(hits, unrestricted, message_id) == best_hit(
            hits.remove(i),
            unrestricted,
            message_id,
        ),
    decreases hits.len(),
{
    if i == hits.len() - 1 {
        assert(hits.remove(i) =~= hits.drop_last());
    } else {
        best_hit_without(hits.drop_last(), unrestricted, message_id, i);
        assert(hits.remove(i).drop_last() =~= hits.drop_last().remove(i));
        assert(hits.remove(i).last() == hits.last());
    }
}

/// What `rank_hits` answers: at most `limit` results, one for each message at most,
/// each with the chunk and the score of a hit of its message that is let through
/// and that no other such hit exceeds; their scores never rise.
pub proof fn rank_hits_answers_with_the_best(
    hits: &Vec<AnnHit>,
    unrestricted: bool,
    limit: usize,
    results: Vec<VectorSearchResult>,
    k: int,
    l: int,
)
    requires
        call_ensures(rank_hits, (hits, unrestricted, limit), results),
        0 <= k <= l < results@.len(),
    ensures
        results@.len() <= limit,
        exists|i: int|
            0 <= i < hits@.len() && (unrestricted || (#[trigger] hits@[i]).matches)
                && hits@[i].parsed is Some && hits@[i].parsed->0.message_id == results@[k].message_id
                && hits@[i].parsed->0.chunk_idx == results@[k].chunk_idx && hits@[i].score.bits
                == results@[k].score.bits,
        forall|i: int|
            0 <= i < hits@.len() && (unrestricted || hits@[i].matches) && hits@[i].parsed is Some
                && hits@[i].parsed->0.message_id == results@[k].message_id ==> !(
            #[trigger] hits@[i]).score.greater(results@[k].score),
        k < l ==> results@[k].message_id != results@[l].message_id,
        k < l ==> !results@[l].score.greater(results@[k].score),
        k < l && results@[k].score.bits < 0x8000_0000 && results@[l].score.bits < 0x8000_0000
            ==> results@[k].score.bits >= results@[l].score.bits,
        k < l && results@[k].score.bits >= 0x8000_0000 ==> results@[l].score.bits
            >= results@[k].score.bits,
        k < l && results@[k].score.bits == results@[l].score.bits ==> results@[k].message_id
            < results@[l].message_id,
{
    let at = ranked_result_is_the_best_hit_let_through(
        hits@,
        unrestricted,
        limit as nat,
        results@,
        k,
    );
    assert(unrestricted || hits@[at].matches);
    if k < l {
        ranked_scores_never_rise(hits@, unrestricted, limit as nat, results@, k, l);
    }
}

/// A hit that is let through is passed over by `rank_hits` only for `limit`
/// results of other messages, none of them with a numerically smaller score,
/// provided that the scores of its message are numbers.
pub proof fn rank_hits_passes_over_none_that_is_better(
    hits: &Vec<AnnHit>,
    unrestricted: bool,
    limit: usize,
    results: Vec<VectorSearchResult>,
    i: int,
)
    requires
        call_ensures(rank_hits, (hits, unrestricted, limit), results),
        0 <= i < hits@.len(),
        unrestricted || hits@[i].matches,
        hits@[i].parsed is Some,
        forall|k: int|
            0 <= k < results@.len() ==> (#[trigger] results@[k]).message_id
                != hits@[i].parsed->0.message_id,
    ensures
        results@.len() == limit,
        (forall|j: int|
            0 <= j < hits@.len() && (unrestricted || hits@[j].matches) && hits@[j].parsed is Some
                && hits@[j].parsed->0.message_id == hits@[i].parsed->0.message_id ==> !(
            #[trigger] hits@[j]).score.is_nan()) ==> forall|k: int|
            0 <= k < results@.len() ==> !hits@[i].score.greater((#[trigger] results@[k]).score),
{
    let at = left_out_message_is_no_better_than_any_ranked(
        hits@,
        unrestricted,
        limit as nat,
        results@,
        i,
    );
}

/// Any hits can be ranked, for any filter and limit.
pub proof fn any_hits_can_be_ranked(hits: &Vec<AnnHit>, unrestricted: bool, limit: usize)
    ensures
        call_requires(rank_hits, (hits, unrestricted, limit)),
{
}

} // verus!
