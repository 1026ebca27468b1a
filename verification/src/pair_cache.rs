//! The semantic index pairs that have been opened, by the paths of their files.

use std::sync::Arc;

use vstd::prelude::*;

use crate::ann::{share, SemanticIndexPair};
use crate::path::{copy_bytes, same_bytes, AssetPath};

verus! {

/// The path keys of a vector index and of its graph.
pub type PairKey = (Seq<u8>, Seq<u8>);

impl AssetPath {
    /// The key under which the pair of this vector index and a graph is held.
    pub open spec fn pair_key(self, ann_path: AssetPath) -> PairKey {
        (self.key@, ann_path.key@)
    }
}

struct CacheEntry {
    vector_key: Vec<u8>,
    ann_key: Vec<u8>,
    pair: Arc<SemanticIndexPair>,
}

impl CacheEntry {
    spec fn key(self) -> PairKey {
        (self.vector_key@, self.ann_key@)
    }
}

/// A map from the paths of two files to the pair opened from them.
pub struct PairCache {
    entries: Vec<CacheEntry>,
}

impl View for PairCache {
    type V = Map<PairKey, SemanticIndexPair>;

    closed spec fn view(&self) -> Map<PairKey, SemanticIndexPair> {
        Map::new(
            |key: PairKey|
                exists|i: int| 0 <= i < self.entries.len() && (#[trigger] self.entries@[i]).key() == key,
            |key: PairKey|
                {
                    let i = choose|i: int|
                        0 <= i < self.entries.len() && (#[trigger] self.entries@[i]).key() == key;
                    *self.entries@[i].pair
                },
        )
    }
}

impl PairCache {
    /// No two entries have the same key.
    pub closed spec fn wf(self) -> bool {
        forall|i: int, j: int|
            0 <= i < j < self.entries.len() ==> (#[trigger] self.entries@[i]).key() != (
            #[trigger] self.entries@[j]).key()
    }

    /// A cache that holds nothing.
    pub fn new() -> (cache: PairCache)
        ensures
            cache.wf(),
            cache@ == Map::<PairKey, SemanticIndexPair>::empty(),
    {
        let cache = PairCache { entries: Vec::new() };
        assert(cache@ =~= Map::<PairKey, SemanticIndexPair>::empty());
        cache
    }

    /// The place of the entry of a key.
    fn find(&self, vector_path: &AssetPath, ann_path: &AssetPath) -> (found: Option<usize>)
        requires
            self.wf(),
        ensures
            match found {
                Some(i) => i < self.entries.len() && self.entries@[i as int].key() == vector_path.pair_key(*ann_path) && self@.contains_key(vector_path.pair_key(*ann_path))
                    && self@[vector_path.pair_key(*ann_path)] == *self.entries@[i as int].pair,
                None => !self@.contains_key(vector_path.pair_key(*ann_path)),
            },
    {
        let mut i: usize = 0;
        while i < self.entries.len()
            invariant
                i <= self.entries.len(),
                self.wf(),
                forall|k: int|
                    0 <= k < i ==> (#[trigger] self.entries@[k]).key() != vector_path.pair_key(*ann_path),
            decreases self.entries.len() - i,
        {
            let entry = &self.entries[i];
            if same_bytes(&entry.vector_key, &vector_path.key) && same_bytes(
                &entry.ann_key,
                &ann_path.key,
            ) {
                return Some(i);
            }
            i += 1;
        }
        None
    }

    /// The pair opened from two files.
    pub fn get(&self, vector_path: &AssetPath, ann_path: &AssetPath) -> (pair: Option<
        Arc<SemanticIndexPair>,
    >)
        requires
            self.wf(),
        ensures
            pair is Some <==> self@.contains_key(vector_path.pair_key(*ann_path)),
            pair is Some ==> *pair->0 == self@[vector_path.pair_key(*ann_path)],
    {
        match self.find(vector_path, ann_path) {
            Some(i) => Some(share(&self.entries[i].pair)),
            None => None,
        }
    }

    /// Holds a pair for two files, in place of the one held for them before.
    pub fn insert(
        &mut self,
        vector_path: &AssetPath,
        ann_path: &AssetPath,
        pair: Arc<SemanticIndexPair>,
    )
        requires
            old(self).wf(),
        ensures
            final(self).wf(),
            final(self)@ == old(self)@.insert(vector_path.pair_key(*ann_path), *pair),
    {
        let ghost key = vector_path.pair_key(*ann_path);
        let entry = CacheEntry {
            vector_key: copy_bytes(&vector_path.key),
            ann_key: copy_bytes(&ann_path.key),
            pair,
        };
        match self.find(vector_path, ann_path) {
            Some(i) => {
                self.entries.set(i, entry);
                assert(self.entries@[i as int].key() == key);
            },
            None => {
                proof {
                    assert forall|k: int| 0 <= k < self.entries.len() implies (
                    #[trigger] self.entries@[k]).key() != key by {}
                }
                self.entries.push(entry);
                assert(self.entries@[self.entries.len() - 1].key() == key);
            },
        }
        let ghost was = old(self).entries@;
        assert(self.wf());
        assert forall|k: PairKey| self@.contains_key(k) <==> (k == key || old(self)@.contains_key(
            k,
        )) by {
            if k != key && old(self)@.contains_key(k) {
                let i = choose|i: int| 0 <= i < was.len() && (#[trigger] was[i]).key() == k;
                assert(self.entries@[i].key() == k);
            }
        }
        assert forall|k: PairKey| k != key && old(self)@.contains_key(k) implies self@[k] == old(
            self,
        )@[k] by {
            let i = choose|i: int| 0 <= i < was.len() && (#[trigger] was[i]).key() == k;
            assert(self.entries@[i] == was[i]);
        }
        assert(self@ =~= old(self)@.insert(key, *pair));
    }

    /// Lets go of every pair.
    pub fn clear(&mut self)
        ensures
            final(self).wf(),
            final(self)@ == Map::<PairKey, SemanticIndexPair>::empty(),
    {
        self.entries.clear();
        assert(self@ =~= Map::<PairKey, SemanticIndexPair>::empty());
    }
}

/// Two pairs of paths have one key if and only if the keys of both paths agree, byte
/// by byte; how the paths are shown has no say.
pub proof fn pair_key_is_made_of_both_keys(
    vector_path: AssetPath,
    ann_path: AssetPath,
    other_vector_path: AssetPath,
    other_ann_path: AssetPath,
)
    ensures
        vector_path.pair_key(ann_path) == other_vector_path.pair_key(other_ann_path) <==> (
        vector_path.key@ == other_vector_path.key@ && ann_path.key@ == other_ann_path.key@),
        vector_path.pair_key(ann_path) == (vector_path.key@, ann_path.key@),
{
}

/// A new cache holds nothing for any two files, and neither does a cleared one.
pub proof fn empty_cache_gives_nothing(
    cache: PairCache,
    cleared: &mut PairCache,
    vector_path: &AssetPath,
    ann_path: &AssetPath,
    found: Option<Arc<SemanticIndexPair>>,
)
    requires
        call_ensures(PairCache::new, (), cache) || (call_ensures(PairCache::clear, (cleared,), ())
            && cache == *final(cleared)),
        call_ensures(PairCache::get, (&cache, vector_path, ann_path), found),
    ensures
        found is None,
{
}

/// What was put into a cache for two files comes out for any paths of the same keys;
/// for all other paths there comes out what came out before.
pub proof fn cache_gives_back_what_was_put_in(
    cache: &mut PairCache,
    vector_path: &AssetPath,
    ann_path: &AssetPath,
    pair: Arc<SemanticIndexPair>,
    asked_vector_path: &AssetPath,
    asked_ann_path: &AssetPath,
    before: Option<Arc<SemanticIndexPair>>,
    after: Option<Arc<SemanticIndexPair>>,
)
    requires
        call_ensures(PairCache::get, (&*old(cache), asked_vector_path, asked_ann_path), before),
        call_ensures(PairCache::insert, (cache, vector_path, ann_path, pair), ()),
        call_ensures(PairCache::get, (&*final(cache), asked_vector_path, asked_ann_path), after),
    ensures
        asked_vector_path.key@ == vector_path.key@ && asked_ann_path.key@ == ann_path.key@ ==> (
        after matches Some(found) && *found == *pair),
        asked_vector_path.key@ != vector_path.key@ || asked_ann_path.key@ != ann_path.key@ ==> (
        after is Some <==> before is Some) && (after is Some ==> *after->0 == *before->0),
{
}

} // verus!
