//! What holds of a model manager across its operations.

use std::path::PathBuf;
use std::sync::Arc;

use frankensearch_index::{HnswIndex, VectorIndex};

use vstd::prelude::*;

use crate::error::SemanticError;
use crate::models::{EmbedderInfo, ManagerState, RerankerInfo, FALLBACK_DIMENSION};
use crate::pair_cache::PairKey;
use crate::path::AssetPath;
use crate::semantic::{
    AssetEvent, AssetStep, PairEvent, PairStep, SearchEvent, SearchStep, SemanticAssets,
};

verus! {

/// A new manager has nothing loaded, and answers with stand-ins.
pub proof fn new_manager_holds_nothing<E, R>(data_dir: PathBuf, fallback: EmbedderInfo<E>)
    ensures
        ({
            let state = ManagerState::<E, R>::initial(data_dir, fallback);
            &&& state.active_embedder() is None
            &&& state.reranker is None
            &&& state.pairs == Map::<PairKey, crate::ann::SemanticIndexPair>::empty()
            &&& state.embedder_id() == "hash-384"@
            &&& state.embedder_dimension() == FALLBACK_DIMENSION
            &&& state.reranker_id() == "none"@
        }),
{
}

/// Whatever comes of trying the model, there is an embedder afterwards.
pub proof fn warming_leaves_an_embedder<E, R>(
    state: ManagerState<E, R>,
    loaded: Option<EmbedderInfo<E>>,
)
    ensures
        state.embedder_tried(loaded).active_embedder() is Some,
{
}

/// Where the model cannot be loaded, the fallback takes its place under its own
/// id, name and dimension.
pub proof fn fallback_stands_in<E, R>(state: ManagerState<E, R>)
    requires
        state.consistent(),
        state.embedder is Empty,
    ensures
        ({
            let after = state.embedder_tried(None);
            &&& after.active_embedder() == Some(state.fallback)
            &&& after.embedder_id() == state.fallback.id
            &&& after.embedder_name == "hash-fallback"@
            &&& after.embedder_dimension() == FALLBACK_DIMENSION
        }),
{
}

/// The first embedder stays: warming again changes nothing, whatever comes of
/// it.
pub proof fn first_embedder_stays<E, R>(
    state: ManagerState<E, R>,
    first: Option<EmbedderInfo<E>>,
    second: Option<EmbedderInfo<E>>,
)
    ensures
        state.embedder_tried(first).embedder_tried(second) == state.embedder_tried(first),
{
}

/// The first reranker stays.
pub proof fn first_reranker_stays<E, R>(
    state: ManagerState<E, R>,
    first: RerankerInfo<R>,
    second: RerankerInfo<R>,
)
    ensures
        state.reranker_loaded(first).reranker_loaded(second) == state.reranker_loaded(first),
{
}

/// Embedder and reranker are loaded independently: the order does not matter.
pub proof fn models_load_independently<E, R>(
    state: ManagerState<E, R>,
    embedder: Option<EmbedderInfo<E>>,
    reranker: RerankerInfo<R>,
)
    ensures
        state.embedder_tried(embedder).reranker_loaded(reranker) == state.reranker_loaded(
            reranker,
        ).embedder_tried(embedder),
{
}

/// Unloading undoes every load, and leaves what a new manager holds.
pub proof fn unloading_undoes_loading<E, R>(
    state: ManagerState<E, R>,
    embedder: Option<EmbedderInfo<E>>,
    reranker: RerankerInfo<R>,
)
    ensures
        state.embedder_tried(embedder).unloaded() == state.unloaded(),
        state.reranker_loaded(reranker).unloaded() == state.unloaded(),
        state.unloaded().unloaded() == state.unloaded(),
        state.unloaded() == ManagerState::<E, R>::initial(state.data_dir, state.fallback),
{
}

/// Loading and unloading models keeps a state consistent: the names say what is
/// loaded.
pub proof fn loading_keeps_names_right<E, R>(
    state: ManagerState<E, R>,
    embedder: Option<EmbedderInfo<E>>,
    reranker: RerankerInfo<R>,
)
    requires
        state.consistent(),
    ensures
        state.embedder_tried(embedder).consistent(),
        state.reranker_loaded(reranker).consistent(),
        state.unloaded().consistent(),
{
}

/// Opening pairs touches the cache and nothing else, and of the cache no pair
/// but that of the two files.
pub proof fn opening_touches_one_pair<E, R>(
    was: ManagerState<E, R>,
    now: ManagerState<E, R>,
    vector_path: AssetPath,
    ann_path: AssetPath,
    event: PairEvent,
    step: Result<PairStep, SemanticError>,
    other: PairKey,
)
    requires
        crate::models::pair_transition(was, now, vector_path, ann_path, event, step),
        other != vector_path.pair_key(ann_path),
    ensures
        now == (ManagerState { pairs: now.pairs, ..was }),
        now.pairs.contains_key(other) == was.pairs.contains_key(other),
        was.pairs.contains_key(other) ==> now.pairs[other] == was.pairs[other],
        now.unloaded() == was.unloaded(),
{
}

/// A pair that could not be opened leaves no trace.
pub proof fn failed_opening_changes_nothing<E, R>(
    was: ManagerState<E, R>,
    now: ManagerState<E, R>,
    vector_path: AssetPath,
    ann_path: AssetPath,
    event: PairEvent,
    step: Result<PairStep, SemanticError>,
)
    requires
        crate::models::pair_transition(was, now, vector_path, ann_path, event, step),
        step is Err,
    ensures
        now == was,
{
}

/// Once a pair is ready it is cached: asking for it again, by any paths of the
/// same keys, gives the same pair at once.
pub proof fn ready_pair_is_cached<E, R>(
    was: ManagerState<E, R>,
    now: ManagerState<E, R>,
    vector_path: AssetPath,
    ann_path: AssetPath,
    event: PairEvent,
    pair: Arc<crate::ann::SemanticIndexPair>,
    later: ManagerState<E, R>,
    later_vector_path: AssetPath,
    later_ann_path: AssetPath,
    later_step: Result<PairStep, SemanticError>,
)
    requires
        crate::models::pair_transition(
            was,
            now,
            vector_path,
            ann_path,
            event,
            Ok(PairStep::Ready(pair)),
        ),
        later_vector_path.pair_key(later_ann_path) == vector_path.pair_key(ann_path),
        crate::models::pair_transition(
            now,
            later,
            later_vector_path,
            later_ann_path,
            PairEvent::Begin,
            later_step,
        ),
    ensures
        later == now,
        later_step matches Ok(PairStep::Ready(again)) && *again == *pair,
{
}

/// A pair opened step by step from two files holds the indices that were opened,
/// and it alone is added to the cache.
pub proof fn opened_pair_holds_what_was_opened<E, R>(
    states: Seq<ManagerState<E, R>>,
    vector_path: AssetPath,
    ann_path: AssetPath,
    vectors: VectorIndex,
    opened: Arc<VectorIndex>,
    kept: Arc<VectorIndex>,
    ann: HnswIndex,
    pair: Arc<crate::ann::SemanticIndexPair>,
)
    requires
        states.len() == 5,
        crate::models::pair_transition(
            states[0],
            states[1],
            vector_path,
            ann_path,
            PairEvent::Begin,
            Ok(PairStep::OpenVector),
        ),
        crate::models::pair_transition(
            states[1],
            states[2],
            vector_path,
            ann_path,
            PairEvent::VectorOpened(Ok(vectors)),
            Ok(PairStep::CheckAnn(opened)),
        ),
        crate::models::pair_transition(
            states[2],
            states[3],
            vector_path,
            ann_path,
            PairEvent::AnnChecked(opened, true),
            Ok(PairStep::LoadAnn(kept)),
        ),
        crate::models::pair_transition(
            states[3],
            states[4],
            vector_path,
            ann_path,
            PairEvent::AnnLoaded(kept, Ok(ann)),
            Ok(PairStep::Ready(pair)),
        ),
    ensures
        *pair.vector_index == vectors,
        *pair.ann_index == ann,
        pair.of_one_dimension(),
        !states[0].pairs.contains_key(vector_path.pair_key(ann_path)),
        states[4] == (ManagerState {
            pairs: states[0].pairs.insert(vector_path.pair_key(ann_path), *pair),
            ..states[0]
        }),
{
}

/// A graph of another dimension than its vector index is stale, and does not
/// enter the cache.
pub proof fn mismatched_dimensions_are_stale<E, R>(
    was: ManagerState<E, R>,
    now: ManagerState<E, R>,
    vector_path: AssetPath,
    ann_path: AssetPath,
    vectors: Arc<VectorIndex>,
    ann: HnswIndex,
    step: Result<PairStep, SemanticError>,
)
    requires
        crate::models::pair_transition(
            was,
            now,
            vector_path,
            ann_path,
            PairEvent::AnnLoaded(vectors, Ok(ann)),
            step,
        ),
        !was.pairs.contains_key(vector_path.pair_key(ann_path)),
        crate::ann::ann_dimension(ann) != crate::ann::vector_dimension(*vectors),
    ensures
        now == was,
        step matches Err(error) && error@ == (crate::error::SemanticErrorView::StaleAnn {
            path: ann_path.shown@,
        }),
{
}

/// A cached pair stays, whatever happens on the way to any pair: also a graph
/// handed in for its own two files does not replace it.
pub proof fn cached_pair_stays<E, R>(
    was: ManagerState<E, R>,
    now: ManagerState<E, R>,
    vector_path: AssetPath,
    ann_path: AssetPath,
    event: PairEvent,
    step: Result<PairStep, SemanticError>,
    key: PairKey,
)
    requires
        crate::models::pair_transition(was, now, vector_path, ann_path, event, step),
        was.pairs.contains_key(key),
    ensures
        now.pairs.contains_key(key),
        now.pairs[key] == was.pairs[key],
{
}

/// A cached pair stays while models are loaded, too.
pub proof fn loading_models_keeps_pairs<E, R>(
    state: ManagerState<E, R>,
    embedder: Option<EmbedderInfo<E>>,
    reranker: RerankerInfo<R>,
)
    ensures
        state.embedder_tried(embedder).pairs == state.pairs,
        state.reranker_loaded(reranker).pairs == state.pairs,
{
}

/// The graph of every cached pair was found to match its vector index: so it is to
/// begin with, and opening pairs keeps it so.
pub proof fn cached_pairs_were_found_to_match<E, R>(
    data_dir: PathBuf,
    fallback: EmbedderInfo<E>,
    was: ManagerState<E, R>,
    now: ManagerState<E, R>,
    vector_path: AssetPath,
    ann_path: AssetPath,
    event: PairEvent,
    step: Result<PairStep, SemanticError>,
)
    requires
        was.pairs_found_to_match(),
        crate::models::pair_transition(was, now, vector_path, ann_path, event, step),
    ensures
        ManagerState::<E, R>::initial(data_dir, fallback).pairs_found_to_match(),
        now.pairs_found_to_match(),
{
}

/// The two halves of every cached pair have one dimension: so it is to begin
/// with, and opening pairs keeps it so.
pub proof fn cached_pairs_have_one_dimension<E, R>(
    data_dir: PathBuf,
    fallback: EmbedderInfo<E>,
    was: ManagerState<E, R>,
    now: ManagerState<E, R>,
    vector_path: AssetPath,
    ann_path: AssetPath,
    event: PairEvent,
    step: Result<PairStep, SemanticError>,
)
    requires
        was.pairs_of_one_dimension(),
        crate::models::pair_transition(was, now, vector_path, ann_path, event, step),
    ensures
        ManagerState::<E, R>::initial(data_dir, fallback).pairs_of_one_dimension(),
        now.pairs_of_one_dimension(),
{
}

/// Warming the assets does to the manager what opening their pair does: it keeps
/// what holds of the cached pairs, and a failure changes nothing.
pub proof fn warming_assets_keeps_pairs_right<E, R>(
    was: ManagerState<E, R>,
    now: ManagerState<E, R>,
    event: AssetEvent,
    step: Result<AssetStep, SemanticError>,
)
    requires
        crate::models::asset_transition(was, now, event, step),
    ensures
        step is Err ==> now == was,
        was.pairs_found_to_match() ==> now.pairs_found_to_match(),
        was.pairs_of_one_dimension() ==> now.pairs_of_one_dimension(),
        forall|key: PairKey| #[trigger]
            was.pairs.contains_key(key) ==> now.pairs.contains_key(key) && now.pairs[key]
                == was.pairs[key],
{
}

/// Once the assets are warm, they are those of the current embedder, and their
/// pair is cached.
pub proof fn warm_assets_are_the_current_ones<E, R>(
    was: ManagerState<E, R>,
    now: ManagerState<E, R>,
    assets: SemanticAssets,
    event: AssetEvent,
)
    requires
        event.is_about(assets),
        crate::models::asset_transition(was, now, event, Ok(AssetStep::Done)),
    ensures
        assets.embedder_id@ == was.embedder_id(),
        now.embedder_id() == was.embedder_id(),
        now.pairs.contains_key(assets.vector_path.pair_key(assets.ann_path)),
{
}

/// Once the assets are warm, a search of the same files goes to the graph at
/// once: it opens nothing, and asks for enough candidates with a beam as wide.
pub proof fn warm_assets_are_searched_at_once<E, R>(
    was: ManagerState<E, R>,
    warm: ManagerState<E, R>,
    assets: SemanticAssets,
    event: AssetEvent,
    later: ManagerState<E, R>,
    fetch_limit: usize,
    unrestricted: bool,
    step: Result<SearchStep, SemanticError>,
)
    requires
        event.is_about(assets),
        crate::models::asset_transition(was, warm, event, Ok(AssetStep::Done)),
        crate::models::search_transition(
            warm,
            later,
            assets.vector_path,
            assets.ann_path,
            fetch_limit,
            unrestricted,
            SearchEvent::Pair(PairEvent::Begin),
            step,
        ),
    ensures
        later == warm,
        step matches Ok(SearchStep::Search { pair, candidates, ef }) && *pair
            == warm.pairs[assets.vector_path.pair_key(assets.ann_path)] && fetch_limit <= candidates
            <= ef,
{
    warm_assets_are_the_current_ones(was, warm, assets, event);
}

/// A search keeps what holds of the cached pairs.
pub proof fn searching_keeps_pairs_right<E, R>(
    was: ManagerState<E, R>,
    now: ManagerState<E, R>,
    vector_path: AssetPath,
    ann_path: AssetPath,
    fetch_limit: usize,
    unrestricted: bool,
    event: SearchEvent,
    step: Result<SearchStep, SemanticError>,
)
    requires
        crate::models::search_transition(
            was,
            now,
            vector_path,
            ann_path,
            fetch_limit,
            unrestricted,
            event,
            step,
        ),
    ensures
        was.pairs_found_to_match() ==> now.pairs_found_to_match(),
        was.pairs_of_one_dimension() ==> now.pairs_of_one_dimension(),
        forall|key: PairKey| #[trigger]
            was.pairs.contains_key(key) ==> now.pairs.contains_key(key) && now.pairs[key]
                == was.pairs[key],
{
}

/// A failed search changes nothing, and neither does one that ends: the two of
/// them leave the manager as it was.
pub proof fn ended_search_changes_nothing<E, R>(
    was: ManagerState<E, R>,
    now: ManagerState<E, R>,
    vector_path: AssetPath,
    ann_path: AssetPath,
    fetch_limit: usize,
    unrestricted: bool,
    event: SearchEvent,
    step: Result<SearchStep, SemanticError>,
)
    requires
        crate::models::search_transition(
            was,
            now,
            vector_path,
            ann_path,
            fetch_limit,
            unrestricted,
            event,
            step,
        ),
        step is Err || step->Ok_0 is Done,
    ensures
        now == was,
{
}

} // verus!
