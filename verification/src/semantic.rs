//! The steps of a semantic search, and of opening the indices that it runs on.

use std::path::PathBuf;
use std::sync::Arc;

use frankensearch_index::{HnswIndex, VectorIndex};

use vstd::prelude::*;

use crate::ann::{default_ef_search, SemanticIndexPair};
use crate::path::AssetPath;
use crate::ranking::{AnnHit, VectorSearchResult};

verus! {

/// How many candidates the approximate search is asked for, for each result
/// that is wanted.
pub const ANN_CANDIDATE_MULTIPLIER: usize = 4;

/// What has happened on the way to an open pair.
#[derive(Debug)]
pub enum PairEvent {
    /// Nothing yet.
    Begin,
    /// The vector index was opened, or failed to open for this cause.
    VectorOpened(Result<VectorIndex, String>),
    /// Beside the vector index the graph was looked for: is there such a file?
    AnnChecked(Arc<VectorIndex>, bool),
    /// For the vector index the graph was loaded, or failed to for this cause.
    AnnLoaded(Arc<VectorIndex>, Result<HnswIndex, String>),
}

/// What to do on the way to an open pair.
#[derive(Debug)]
pub enum PairStep {
    /// Open the vector index.
    OpenVector,
    /// See whether the graph is a file.
    CheckAnn(Arc<VectorIndex>),
    /// Load the graph for this vector index.
    LoadAnn(Arc<VectorIndex>),
    /// Nothing more: this is the pair.
    Ready(Arc<SemanticIndexPair>),
}

/// Where the semantic assets of an embedder were located.
#[derive(Debug)]
pub struct SemanticAssets {
    pub embedder_id: String,
    pub vector_path: AssetPath,
    pub ann_path: AssetPath,
}

/// What has happened on the way to warm semantic assets.
#[derive(Debug)]
pub enum AssetEvent<'e> {
    /// Nothing yet.
    Begin,
    /// The two files were looked for: are they there?
    Located { assets: &'e SemanticAssets, vector_is_file: bool, ann_is_file: bool },
    /// A step towards the pair was taken.
    Pair { assets: &'e SemanticAssets, event: PairEvent },
}

impl<'e> AssetEvent<'e> {
    /// The event is about these assets.
    pub open spec fn is_about(self, assets: SemanticAssets) -> bool {
        match self {
            AssetEvent::Begin => false,
            AssetEvent::Located { assets: located, .. } => *located == assets,
            AssetEvent::Pair { assets: located, .. } => *located == assets,
        }
    }
}

/// What to do on the way to warm semantic assets.
#[derive(Debug)]
pub enum AssetStep<'a> {
    /// Locate the assets of this embedder under this data directory.
    Locate { data_dir: &'a PathBuf, embedder_id: String },
    /// Take this step towards the pair.
    Pair(PairStep),
    /// Nothing more.
    Done,
}

/// The figures of one approximate search. The estimated recall is held as the
/// bits of a single-precision number.
#[derive(Clone, Copy, Debug, PartialEq, Eq, Structural)]
pub struct AnnSearchStats {
    pub index_size: usize,
    pub dimension: usize,
    pub ef_search: usize,
    pub k_requested: usize,
    pub k_returned: usize,
    pub search_time_us: u64,
    pub estimated_recall: u32,
    pub is_approximate: bool,
}

/// What has happened in the course of a semantic search.
#[derive(Debug)]
pub enum SearchEvent {
    /// A step towards the pair was taken.
    Pair(PairEvent),
    /// The pair was searched, or the search failed for this cause.
    Searched(Result<(Vec<AnnHit>, AnnSearchStats), String>),
}

/// What to do in the course of a semantic search.
#[derive(Debug)]
pub enum SearchStep {
    /// Take this step towards the pair.
    Pair(PairStep),
    /// Search the graph of the pair for `candidates` neighbours with a beam of
    /// `ef`.
    Search { pair: Arc<SemanticIndexPair>, candidates: usize, ef: usize },
    /// Nothing more: this is what was found.
    Done(Vec<VectorSearchResult>, AnnSearchStats),
}

/// The number of candidates to ask for: four for each wanted result, as far as
/// that can be counted.
pub open spec fn candidates_for(fetch_limit: usize) -> usize {
    if fetch_limit * ANN_CANDIDATE_MULTIPLIER <= usize::MAX {
        (fetch_limit * ANN_CANDIDATE_MULTIPLIER) as usize
    } else {
        usize::MAX
    }
}

/// The beam of a search for that many candidates: as wide, and at least 100.
pub open spec fn beam_for(candidates: usize) -> usize {
    if candidates < 100 {
        100
    } else {
        candidates
    }
}

/// The number of candidates to ask for.
pub fn candidate_count(fetch_limit: usize) -> (candidates: usize)
    ensures
        candidates == candidates_for(fetch_limit),
{
    match fetch_limit.checked_mul(ANN_CANDIDATE_MULTIPLIER) {
        Some(candidates) => candidates,
        None => usize::MAX,
    }
}

/// The beam of a search for that many candidates.
pub fn search_beam(candidates: usize) -> (ef: usize)
    ensures
        ef == beam_for(candidates),
{
    let ef: usize = default_ef_search();
    if ef < candidates {
        candidates
    } else {
        ef
    }
}

/// There are at least as many candidates as wanted results, and the beam is at
/// least as wide as there are candidates.
pub proof fn search_is_wide_enough(fetch_limit: usize)
    ensures
        fetch_limit <= candidates_for(fetch_limit) <= beam_for(candidates_for(fetch_limit)),
{
}

/// Four candidates are asked for each wanted result; where that cannot be counted,
/// as many as can be.
pub proof fn four_candidates_for_each_result(fetch_limit: usize, candidates: usize)
    requires
        call_ensures(candidate_count, (fetch_limit,), candidates),
    ensures
        4 * fetch_limit <= usize::MAX ==> candidates == 4 * fetch_limit,
        4 * fetch_limit > usize::MAX ==> candidates == usize::MAX,
{
}

/// The beam is as wide as there are candidates, and no narrower than 100: the
/// narrowest beam that is both.
pub proof fn beam_is_no_wider_than_it_has_to_be(candidates: usize, ef: usize)
    requires
        call_ensures(search_beam, (candidates,), ef),
    ensures
        ef >= candidates,
        ef >= 100,
        ef == candidates || ef == 100,
{
}

} // verus!
