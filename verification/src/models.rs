//! The model manager: an embedder, a reranker and the semantic index pairs, each
//! loaded when it is first needed.
//!
//! The manager decides; it neither reads files nor runs a model. Where such work
//! is needed, a method answers with a step to take, and is called again with what
//! came of it.

use std::path::PathBuf;
use std::sync::Arc;

use vstd::prelude::*;

use crate::ann::{compare, share, SemanticIndexPair};
use crate::error::{
    EmbedderError, EmbedderErrorView, RerankerError, SemanticError, SemanticErrorView,
};
use crate::pair_cache::{PairCache, PairKey};
use crate::path::AssetPath;
use crate::ranking::rank_hits;
use crate::semantic::{
    candidate_count, search_beam, AssetEvent, AssetStep, PairEvent,
    PairStep, SearchEvent, SearchStep,
};

verus! {

/// The dimension of the fallback embedder, and of the vectors to expect while
/// nothing is loaded.
pub const FALLBACK_DIMENSION: usize = 384;

/// A loaded embedder: how it identifies itself, and the model to call.
#[derive(Debug)]
pub struct LoadedEmbedder<E> {
    pub id: String,
    pub dimension: usize,
    pub model: E,
}

/// What a [`LoadedEmbedder`] holds.
pub struct EmbedderInfo<E> {
    pub id: Seq<char>,
    pub dimension: usize,
    pub model: E,
}

impl<E> View for LoadedEmbedder<E> {
    type V = EmbedderInfo<E>;

    open spec fn view(&self) -> EmbedderInfo<E> {
        EmbedderInfo { id: self.id@, dimension: self.dimension, model: self.model }
    }
}

/// A loaded reranker: how it identifies itself, and the model to call.
#[derive(Debug)]
pub struct LoadedReranker<R> {
    pub id: String,
    pub model: R,
}

/// What a [`LoadedReranker`] holds.
pub struct RerankerInfo<R> {
    pub id: Seq<char>,
    pub model: R,
}

impl<R> View for LoadedReranker<R> {
    type V = RerankerInfo<R>;

    open spec fn view(&self) -> RerankerInfo<R> {
        RerankerInfo { id: self.id@, model: self.model }
    }
}

enum EmbedderSlot<E> {
    Empty,
    Fallback,
    Model(LoadedEmbedder<E>),
}

/// Which embedder is in use.
pub enum EmbedderState<E> {
    /// None has been loaded.
    Empty,
    /// The model could not be loaded, and the fallback stands in for it.
    Fallback,
    /// The model.
    Model(EmbedderInfo<E>),
}

/// What a [`ModelManager`] holds.
#[verifier::ext_equal]
pub struct ManagerState<E, R> {
    pub data_dir: PathBuf,
    pub fallback: EmbedderInfo<E>,
    pub embedder: EmbedderState<E>,
    pub reranker: Option<RerankerInfo<R>>,
    pub embedder_name: Seq<char>,
    pub reranker_name: Seq<char>,
    pub pairs: Map<PairKey, SemanticIndexPair>,
}

impl<E, R> ManagerState<E, R> {
    /// The state in which nothing has been loaded.
    pub open spec fn initial(data_dir: PathBuf, fallback: EmbedderInfo<E>) -> Self {
        ManagerState {
            data_dir,
            fallback,
            embedder: EmbedderState::Empty,
            reranker: None,
            embedder_name: "not-loaded"@,
            reranker_name: "not-loaded"@,
            pairs: Map::empty(),
        }
    }

    /// The embedder to call, if one is loaded.
    pub open spec fn active_embedder(self) -> Option<EmbedderInfo<E>> {
        match self.embedder {
            EmbedderState::Empty => None,
            EmbedderState::Fallback => Some(self.fallback),
            EmbedderState::Model(info) => Some(info),
        }
    }

    /// The id of the embedder to call, or a stand-in while none is loaded.
    pub open spec fn embedder_id(self) -> Seq<char> {
        match self.active_embedder() {
            Some(info) => info.id,
            None => "hash-384"@,
        }
    }

    /// The dimension of the embedder to call, or a stand-in while none is loaded.
    pub open spec fn embedder_dimension(self) -> usize {
        match self.active_embedder() {
            Some(info) => info.dimension,
            None => FALLBACK_DIMENSION,
        }
    }

    /// The id of the reranker, or a stand-in while none is loaded.
    pub open spec fn reranker_id(self) -> Seq<char> {
        match self.reranker {
            Some(info) => info.id,
            None => "none"@,
        }
    }

    /// The state once the embedder model was tried: `loaded` is the model, or
    /// `None` where it could not be loaded. An embedder that is there already
    /// stays.
    pub open spec fn embedder_tried(self, loaded: Option<EmbedderInfo<E>>) -> Self {
        if self.embedder !is Empty {
            self
        } else {
            match loaded {
                Some(info) => ManagerState {
                    embedder: EmbedderState::Model(info),
                    embedder_name: "MiniLM-L6-v2"@,
                    ..self
                },
                None => ManagerState {
                    embedder: EmbedderState::Fallback,
                    embedder_name: "hash-fallback"@,
                    ..self
                },
            }
        }
    }

    /// The state once the reranker model was loaded. A reranker that is there
    /// already stays.
    pub open spec fn reranker_loaded(self, loaded: RerankerInfo<R>) -> Self {
        if self.reranker is Some {
            self
        } else {
            ManagerState {
                reranker: Some(loaded),
                reranker_name: "ms-marco-MiniLM-L-6-v2"@,
                ..self
            }
        }
    }

    /// The state once everything was unloaded.
    pub open spec fn unloaded(self) -> Self {
        Self::initial(self.data_dir, self.fallback)
    }

    /// What holds of every manager: the names say what is loaded, and the
    /// fallback has its fixed dimension.
    pub open spec fn consistent(self) -> bool {
        &&& self.embedder_name == match self.embedder {
            EmbedderState::Empty => "not-loaded"@,
            EmbedderState::Fallback => "hash-fallback"@,
            EmbedderState::Model(_) => "MiniLM-L6-v2"@,
        }
        &&& self.reranker_name == if self.reranker is Some {
            "ms-marco-MiniLM-L-6-v2"@
        } else {
            "not-loaded"@
        }
        &&& self.fallback.dimension == FALLBACK_DIMENSION
    }

    /// The graph of each cached pair was found to match its vector index.
    pub open spec fn pairs_found_to_match(self) -> bool {
        forall|key: PairKey| #[trigger]
            self.pairs.contains_key(key) ==> self.pairs[key].found_to_match()
    }

    /// The two halves of each cached pair have one dimension.
    pub open spec fn pairs_of_one_dimension(self) -> bool {
        forall|key: PairKey| #[trigger]
            self.pairs.contains_key(key) ==> self.pairs[key].of_one_dimension()
    }
}

/// What has happened on the way to a loaded model.
#[derive(Debug)]
pub enum WarmEvent<T> {
    /// Nothing yet.
    Begin,
    /// The model was tried, with this outcome.
    Tried(T),
}

/// What to do on the way to a loaded model.
#[derive(Debug, PartialEq, Eq)]
pub enum WarmStep<'a> {
    /// Nothing more.
    Ready,
    /// Try to load the model kept under this data directory.
    Load(&'a PathBuf),
}

/// What to do on the way to a call of a model.
#[derive(Debug, PartialEq, Eq)]
pub enum CallStep<T> {
    /// Warm the model first, then ask again.
    Warm,
    /// Make this call, and answer with what it returns.
    Call(T),
}

/// A call that embeds one text.
#[derive(Debug)]
pub struct EmbedCall<'a, E> {
    pub embedder: &'a LoadedEmbedder<E>,
    pub text: &'a str,
}

/// A call that embeds several texts.
#[derive(Debug)]
pub struct EmbedBatchCall<'a, E> {
    pub embedder: &'a LoadedEmbedder<E>,
    pub texts: Vec<&'a str>,
}

/// A call that scores documents against a query.
#[derive(Debug)]
pub struct RerankCall<'a, R> {
    pub reranker: &'a LoadedReranker<R>,
    pub query: &'a str,
    pub documents: Vec<&'a str>,
}

/// The texts that string slices point to.
pub open spec fn slices_text(slices: Seq<&str>) -> Seq<Seq<char>> {
    slices.map_values(|slice: &str| slice@)
}

/// The texts that strings hold.
pub open spec fn strings_text(strings: Seq<String>) -> Seq<Seq<char>> {
    strings.map_values(|string: String| string@)
}

/// The strings as slices.
fn as_slices<'a>(strings: &'a [String]) -> (slices: Vec<&'a str>)
    ensures
        slices_text(slices@) == strings_text(strings@),
{
    let mut slices: Vec<&'a str> = Vec::new();
    let mut i: usize = 0;
    while i < strings.len()
        invariant
            i <= strings.len(),
            slices.len() == i,
            forall|k: int| 0 <= k < i ==> (#[trigger] slices@[k])@ == strings@[k]@,
        decreases strings.len() - i,
    {
        slices.push(strings[i].as_str());
        i += 1;
    }
    assert(slices_text(slices@) =~= strings_text(strings@));
    slices
}

/// The error of a call for which there is no embedder, even once it was warmed.
pub open spec fn embedder_unavailable() -> EmbedderErrorView {
    EmbedderErrorView::EmbedderUnavailable {
        model: "unknown"@,
        reason: "embedder not loaded"@,
    }
}

/// Whether a manager answers with the pair that it holds for a key, and stays as
/// it is.
pub open spec fn pair_fetched<E, R>(
    was: ManagerState<E, R>,
    now: ManagerState<E, R>,
    key: PairKey,
    step: Result<PairStep, SemanticError>,
) -> bool {
    &&& now == was
    &&& step matches Ok(PairStep::Ready(pair))
    &&& *pair == was.pairs[key]
}

/// Whether an event takes a manager from one state to another with an answer,
/// on the way to the pair of two files. A cached pair is the answer, whatever the
/// event. Else the two files are opened: a loaded graph is compared with its
/// vector index, and only a graph found to match enters the cache. A failure
/// changes nothing.
pub open spec fn pair_transition<E, R>(
    was: ManagerState<E, R>,
    now: ManagerState<E, R>,
    vector_path: AssetPath,
    ann_path: AssetPath,
    event: PairEvent,
    step: Result<PairStep, SemanticError>,
) -> bool {
    let key = vector_path.pair_key(ann_path);
    if was.pairs.contains_key(key) {
        pair_fetched(was, now, key, step)
    } else {
        pair_opening(was, now, vector_path, ann_path, event, step)
    }
}

/// Whether an event takes a manager from one state to another with an answer,
/// on the way to a pair that is not cached.
pub open spec fn pair_opening<E, R>(
    was: ManagerState<E, R>,
    now: ManagerState<E, R>,
    vector_path: AssetPath,
    ann_path: AssetPath,
    event: PairEvent,
    step: Result<PairStep, SemanticError>,
) -> bool {
    match event {
        PairEvent::Begin => {
            &&& now == was
            &&& step == Ok::<PairStep, SemanticError>(PairStep::OpenVector)
        },
        PairEvent::VectorOpened(Ok(vectors)) => {
            &&& now == was
            &&& step matches Ok(PairStep::CheckAnn(opened))
            &&& *opened == vectors
        },
        PairEvent::VectorOpened(Err(cause)) => {
            &&& now == was
            &&& step matches Err(error)
            &&& error@ == SemanticErrorView::OpenVectorIndex {
                path: vector_path.shown@,
                cause: cause@,
            }
        },
        PairEvent::AnnChecked(vectors, is_file) => {
            &&& now == was
            &&& if is_file {
                step == Ok::<PairStep, SemanticError>(PairStep::LoadAnn(vectors))
            } else {
                step matches Err(error) && error@ == (SemanticErrorView::AnnNotFound {
                    path: ann_path.shown@,
                })
            }
        },
        PairEvent::AnnLoaded(_, Err(cause)) => {
            &&& now == was
            &&& step matches Err(error)
            &&& error@ == SemanticErrorView::OpenAnn { cause: cause@ }
        },
        PairEvent::AnnLoaded(vectors, Ok(ann)) => {
            let key = vector_path.pair_key(ann_path);
            let pair = SemanticIndexPair { vector_index: vectors, ann_index: Arc::new(ann) };
            exists|answer: Result<bool, String>|
                {
                    &&& crate::ann::may_answer(ann, *vectors, answer)
                    &&& !pair.of_one_dimension() ==> answer == Ok::<bool, String>(false)
                    &&& #[trigger] pair_compared(was, now, key, pair, ann_path, answer, step)
                }
        },
    }
}

/// Whether the answer to the question if a graph matches its vector index takes
/// a manager from one state to another. A pair that is cached already stays.
pub open spec fn pair_compared<E, R>(
    was: ManagerState<E, R>,
    now: ManagerState<E, R>,
    key: PairKey,
    pair: SemanticIndexPair,
    ann_path: AssetPath,
    answer: Result<bool, String>,
    step: Result<PairStep, SemanticError>,
) -> bool {
    if was.pairs.contains_key(key) {
        pair_fetched(was, now, key, step)
    } else {
        pair_judged(was, now, key, pair, ann_path, answer, step)
    }
}

/// Whether the answer takes a manager that does not hold the pair from one state
/// to another.
pub open spec fn pair_judged<E, R>(
    was: ManagerState<E, R>,
    now: ManagerState<E, R>,
    key: PairKey,
    pair: SemanticIndexPair,
    ann_path: AssetPath,
    answer: Result<bool, String>,
    step: Result<PairStep, SemanticError>,
) -> bool {
    match answer {
        Ok(true) => {
            &&& now == ManagerState { pairs: was.pairs.insert(key, pair), ..was }
            &&& step matches Ok(PairStep::Ready(ready))
            &&& *ready == pair
        },
        Ok(false) => {
            &&& now == was
            &&& step matches Err(error)
            &&& error@ == SemanticErrorView::StaleAnn { path: ann_path.shown@ }
        },
        Err(cause) => {
            &&& now == was
            &&& step matches Err(error)
            &&& error@ == SemanticErrorView::ValidateAnn { cause: cause@ }
        },
    }
}

/// Whether a step towards warm assets is what a step towards their pair comes to.
pub open spec fn is_asset_step(
    step: Result<AssetStep, SemanticError>,
    inner: Result<PairStep, SemanticError>,
) -> bool {
    step == match inner {
        Ok(PairStep::Ready(_)) => Ok(AssetStep::Done),
        Ok(other) => Ok(AssetStep::Pair(other)),
        Err(error) => Err(error),
    }
}

/// Whether a step asks to locate the assets of the current embedder.
pub open spec fn is_locate_step<E, R>(
    state: ManagerState<E, R>,
    step: Result<AssetStep, SemanticError>,
) -> bool {
    step matches Ok(AssetStep::Locate { data_dir, embedder_id }) && *data_dir == state.data_dir
        && embedder_id@ == state.embedder_id()
}

/// Whether an event takes a manager from one state to another with an answer,
/// on the way to the warm semantic assets of the current embedder. They have to
/// be located first, and again if they were located for another embedder. Then
/// both files have to be there, and their pair is fetched or opened.
pub open spec fn asset_transition<E, R>(
    was: ManagerState<E, R>,
    now: ManagerState<E, R>,
    event: AssetEvent,
    step: Result<AssetStep, SemanticError>,
) -> bool {
    match event {
        AssetEvent::Begin => now == was && is_locate_step(was, step),
        AssetEvent::Located { assets, vector_is_file, ann_is_file } => {
            if assets.embedder_id@ != was.embedder_id() {
                now == was && is_locate_step(was, step)
            } else if vector_is_file && ann_is_file {
                exists|inner: Result<PairStep, SemanticError>|
                    {
                        &&& #[trigger] pair_transition(
                            was,
                            now,
                            assets.vector_path,
                            assets.ann_path,
                            PairEvent::Begin,
                            inner,
                        )
                        &&& is_asset_step(step, inner)
                    }
            } else {
                &&& now == was
                &&& step matches Err(error)
                &&& error@ == SemanticErrorView::AssetsMissing {
                    embedder_id: was.embedder_id(),
                    vector_path: assets.vector_path.shown@,
                    ann_path: assets.ann_path.shown@,
                }
            }
        },
        AssetEvent::Pair { assets, event } => {
            if assets.embedder_id@ != was.embedder_id() {
                now == was && is_locate_step(was, step)
            } else {
                exists|inner: Result<PairStep, SemanticError>|
                    {
                        &&& #[trigger] pair_transition(
                            was,
                            now,
                            assets.vector_path,
                            assets.ann_path,
                            event,
                            inner,
                        )
                        &&& is_asset_step(step, inner)
                    }
            }
        },
    }
}

/// A step towards a pair, as a step of a search for `fetch_limit` results: the
/// pair is searched as soon as it is there.
pub open spec fn search_step(step: Result<PairStep, SemanticError>, fetch_limit: usize) -> Result<
    SearchStep,
    SemanticError,
> {
    match step {
        Ok(PairStep::Ready(pair)) => {
            let candidates = crate::semantic::candidates_for(fetch_limit);
            Ok(SearchStep::Search { pair, candidates, ef: crate::semantic::beam_for(candidates) })
        },
        Ok(other) => Ok(SearchStep::Pair(other)),
        Err(error) => Err(error),
    }
}

/// Whether an event takes a manager from one state to another with an answer,
/// in the course of a semantic search. What the search found is ranked; its
/// figures are passed on.
pub open spec fn search_transition<E, R>(
    was: ManagerState<E, R>,
    now: ManagerState<E, R>,
    vector_path: AssetPath,
    ann_path: AssetPath,
    fetch_limit: usize,
    unrestricted: bool,
    event: SearchEvent,
    step: Result<SearchStep, SemanticError>,
) -> bool {
    match event {
        SearchEvent::Pair(event) => exists|inner: Result<PairStep, SemanticError>| #[trigger]
            pair_transition(was, now, vector_path, ann_path, event, inner) && step == search_step(
                inner,
                fetch_limit,
            ),
        SearchEvent::Searched(Ok((hits, stats))) => {
            &&& now == was
            &&& step matches Ok(SearchStep::Done(results, figures))
            &&& figures == stats
            &&& crate::ranking::is_ranking(hits@, unrestricted, fetch_limit as nat, results@)
        },
        SearchEvent::Searched(Err(cause)) => {
            &&& now == was
            &&& step matches Err(error)
            &&& error@ == SemanticErrorView::SearchFailed { cause: cause@ }
        },
    }
}

/// Manages the loading of the embedder and reranker models and of the semantic
/// index pairs.
pub struct ModelManager<E, R> {
    data_dir: PathBuf,
    fallback: LoadedEmbedder<E>,
    embedder: EmbedderSlot<E>,
    reranker: Option<LoadedReranker<R>>,
    embedder_name: String,
    reranker_name: String,
    pairs: PairCache,
}

impl<E, R> View for ModelManager<E, R> {
    type V = ManagerState<E, R>;

    closed spec fn view(&self) -> ManagerState<E, R> {
        ManagerState {
            data_dir: self.data_dir,
            fallback: self.fallback@,
            embedder: match self.embedder {
                EmbedderSlot::Empty => EmbedderState::Empty,
                EmbedderSlot::Fallback => EmbedderState::Fallback,
                EmbedderSlot::Model(loaded) => EmbedderState::Model(loaded@),
            },
            reranker: match self.reranker {
                Some(loaded) => Some(loaded@),
                None => None,
            },
            embedder_name: self.embedder_name@,
            reranker_name: self.reranker_name@,
            pairs: self.pairs@,
        }
    }
}

impl<E, R> ModelManager<E, R> {
    /// The manager is in a state that its methods can work with.
    pub closed spec fn wf(self) -> bool {
        self@.consistent() && self.pairs.wf()
    }

    /// A well-formed manager is in a consistent state.
    pub proof fn wf_is_consistent(self)
        requires
            self.wf(),
        ensures
            self@.consistent(),
    {
    }

    /// A manager for the models kept under a data directory, with nothing loaded
    /// yet. The fallback embedder stands in where the model cannot be loaded.
    pub fn new(data_dir: PathBuf, fallback_id: String, fallback_model: E) -> (manager: Self)
        ensures
            manager.wf(),
            manager@ == ManagerState::<E, R>::initial(
                data_dir,
                EmbedderInfo {
                    id: fallback_id@,
                    dimension: FALLBACK_DIMENSION,
                    model: fallback_model,
                },
            ),
    {
        ModelManager {
            data_dir,
            fallback: LoadedEmbedder {
                id: fallback_id,
                dimension: FALLBACK_DIMENSION,
                model: fallback_model,
            },
            embedder: EmbedderSlot::Empty,
            reranker: None,
            embedder_name: "not-loaded".to_owned(),
            reranker_name: "not-loaded".to_owned(),
            pairs: PairCache::new(),
        }
    }

    /// Check if any model is loaded and ready.
    pub fn is_ready(&self) -> (ready: bool)
        ensures
            ready == (self@.embedder !is Empty || self@.reranker is Some),
    {
        self.embedder().is_some() || self.reranker.is_some()
    }

    /// The embedder id.
    pub fn embedder_id(&self) -> (id: String)
        ensures
            id@ == self@.embedder_id(),
    {
        match self.embedder() {
            Some(embedder) => embedder.id.clone(),
            None => "hash-384".to_owned(),
        }
    }

    /// The embedder name.
    pub fn embedder_name(&self) -> (name: String)
        ensures
            name@ == self@.embedder_name,
    {
        self.embedder_name.clone()
    }

    /// The embedder dimension.
    pub fn embedder_dimension(&self) -> (dimension: usize)
        ensures
            dimension == self@.embedder_dimension(),
    {
        match self.embedder() {
            Some(embedder) => embedder.dimension,
            None => FALLBACK_DIMENSION,
        }
    }

    /// Whether an embedder is loaded.
    pub fn embedder_loaded(&self) -> (loaded: bool)
        ensures
            loaded == (self@.embedder !is Empty),
    {
        self.embedder().is_some()
    }

    /// The reranker id.
    pub fn reranker_id(&self) -> (id: String)
        ensures
            id@ == self@.reranker_id(),
    {
        match &self.reranker {
            Some(reranker) => reranker.id.clone(),
            None => "none".to_owned(),
        }
    }

    /// The reranker name.
    pub fn reranker_name(&self) -> (name: String)
        ensures
            name@ == self@.reranker_name,
    {
        self.reranker_name.clone()
    }

    /// Whether a reranker is loaded.
    pub fn reranker_loaded(&self) -> (loaded: bool)
        ensures
            loaded == (self@.reranker is Some),
    {
        self.reranker.is_some()
    }

    /// Pre-warms the embedder: if none is loaded, the model is to be tried, and
    /// where it fails the fallback stands in. So this never fails.
    pub fn warm_embedder<'a, X>(
        &'a mut self,
        event: WarmEvent<Result<LoadedEmbedder<E>, X>>,
    ) -> (step: Result<WarmStep<'a>, EmbedderError>)
        requires
            old(self).wf(),
        ensures
            final(self).wf(),
            step is Ok,
            match event {
                WarmEvent::Begin => {
                    &&& final(self)@ == old(self)@
                    &&& step->Ok_0 == if old(self)@.embedder is Empty {
                        WarmStep::Load(&old(self)@.data_dir)
                    } else {
                        WarmStep::Ready
                    }
                },
                WarmEvent::Tried(Ok(loaded)) => {
                    &&& final(self)@ == old(self)@.embedder_tried(Some(loaded@))
                    &&& step->Ok_0 == WarmStep::Ready
                },
                WarmEvent::Tried(Err(_)) => {
                    &&& final(self)@ == old(self)@.embedder_tried(None)
                    &&& step->Ok_0 == WarmStep::Ready
                },
            },
    {
        if let EmbedderSlot::Empty = &self.embedder {
            match event {
                WarmEvent::Begin => Ok(WarmStep::Load(&self.data_dir)),
                WarmEvent::Tried(Ok(loaded)) => {
                    self.embedder = EmbedderSlot::Model(loaded);
                    self.embedder_name = "MiniLM-L6-v2".to_owned();
                    Ok(WarmStep::Ready)
                },
                WarmEvent::Tried(Err(_)) => {
                    self.embedder = EmbedderSlot::Fallback;
                    self.embedder_name = "hash-fallback".to_owned();
                    Ok(WarmStep::Ready)
                },
            }
        } else {
            Ok(WarmStep::Ready)
        }
    }

    /// Pre-warms the reranker: if none is loaded, the model is to be tried. Where
    /// that fails, so does this, and nothing changes.
    pub fn warm_reranker<'a, X>(
        &'a mut self,
        event: WarmEvent<Result<LoadedReranker<R>, X>>,
    ) -> (step: Result<WarmStep<'a>, X>)
        requires
            old(self).wf(),
        ensures
            final(self).wf(),
            old(self)@.reranker is Some ==> {
                &&& final(self)@ == old(self)@
                &&& step == Ok::<WarmStep, X>(WarmStep::Ready)
            },
            old(self)@.reranker is None ==> match event {
                WarmEvent::Begin => {
                    &&& final(self)@ == old(self)@
                    &&& step == Ok::<WarmStep, X>(WarmStep::Load(&old(self)@.data_dir))
                },
                WarmEvent::Tried(Ok(loaded)) => {
                    &&& final(self)@ == old(self)@.reranker_loaded(loaded@)
                    &&& step == Ok::<WarmStep, X>(WarmStep::Ready)
                },
                WarmEvent::Tried(Err(error)) => {
                    &&& final(self)@ == old(self)@
                    &&& step == Err::<WarmStep, X>(error)
                },
            },
    {
        if self.reranker.is_some() {
            return Ok(WarmStep::Ready);
        }
        match event {
            WarmEvent::Begin => Ok(WarmStep::Load(&self.data_dir)),
            WarmEvent::Tried(Ok(loaded)) => {
                self.reranker = Some(loaded);
                self.reranker_name = "ms-marco-MiniLM-L-6-v2".to_owned();
                Ok(WarmStep::Ready)
            },
            WarmEvent::Tried(Err(error)) => Err(error),
        }
    }

    /// The embedder to call.
    fn embedder(&self) -> (embedder: Option<&LoadedEmbedder<E>>)
        ensures
            embedder is Some <==> self@.active_embedder() is Some,
            embedder is Some ==> embedder->0@ == self@.active_embedder()->0,
    {
        match &self.embedder {
            EmbedderSlot::Empty => None,
            EmbedderSlot::Fallback => Some(&self.fallback),
            EmbedderSlot::Model(loaded) => Some(loaded),
        }
    }

    /// Embeds a batch of texts: what to do, before and after the embedder was
    /// `warmed`.
    pub fn embed_batch<'a>(&'a self, texts: &'a [String], warmed: bool) -> (step: Result<
        CallStep<EmbedBatchCall<'a, E>>,
        EmbedderError,
    >)
        ensures
            match self@.active_embedder() {
                Some(info) => step matches Ok(CallStep::Call(call)) && call.embedder@ == info
                    && slices_text(call.texts@) == strings_text(texts@),
                None => if warmed {
                    step matches Err(error) && error@ == embedder_unavailable()
                } else {
                    step matches Ok(CallStep::Warm)
                },
            },
    {
        match self.embedder() {
            Some(embedder) => Ok(
                CallStep::Call(EmbedBatchCall { embedder, texts: as_slices(texts) }),
            ),
            None => if warmed {
                Err(not_loaded())
            } else {
                Ok(CallStep::Warm)
            },
        }
    }

    /// Embeds a single text: what to do, before and after the embedder was
    /// `warmed`.
    pub fn embed<'a>(&'a self, text: &'a str, warmed: bool) -> (step: Result<
        CallStep<EmbedCall<'a, E>>,
        EmbedderError,
    >)
        ensures
            match self@.active_embedder() {
                Some(info) => step matches Ok(CallStep::Call(call)) && call.embedder@ == info
                    && call.text@ == text@,
                None => if warmed {
                    step matches Err(error) && error@ == embedder_unavailable()
                } else {
                    step matches Ok(CallStep::Warm)
                },
            },
    {
        match self.embedder() {
            Some(embedder) => Ok(CallStep::Call(EmbedCall { embedder, text })),
            None => if warmed {
                Err(not_loaded())
            } else {
                Ok(CallStep::Warm)
            },
        }
    }

    /// Reranks documents against a query: what to do, before and after the
    /// reranker was `warmed`.
    pub fn rerank<'a>(&'a self, query: &'a str, documents: &'a [String], warmed: bool) -> (step:
        Result<CallStep<RerankCall<'a, R>>, RerankerError>)
        ensures
            match self@.reranker {
                Some(info) => step matches Ok(CallStep::Call(call)) && call.reranker@ == info
                    && call.query@ == query@ && slices_text(call.documents@) == strings_text(
                    documents@,
                ),
                None => if warmed {
                    step matches Err(RerankerError::RerankerUnavailable { model }) && model@
                        == "reranker"@
                } else {
                    step matches Ok(CallStep::Warm)
                },
            },
    {
        match &self.reranker {
            Some(reranker) => Ok(
                CallStep::Call(RerankCall { reranker, query, documents: as_slices(documents) }),
            ),
            None => if warmed {
                Err(RerankerError::RerankerUnavailable { model: "reranker".to_owned() })
            } else {
                Ok(CallStep::Warm)
            },
        }
    }

    /// Takes a pair into the cache, if the answer to the question whether its
    /// graph matches its vector index allows it. The pair that the two files have
    /// in the cache already stays.
    pub fn admit_pair(
        &mut self,
        vector_path: &AssetPath,
        ann_path: &AssetPath,
        pair: SemanticIndexPair,
        answer: Result<bool, String>,
    ) -> (step: Result<PairStep, SemanticError>)
        requires
            old(self).wf(),
        ensures
            final(self).wf(),
            pair_compared(
                old(self)@,
                final(self)@,
                vector_path.pair_key(*ann_path),
                pair,
                *ann_path,
                answer,
                step,
            ),
    {
        if let Some(cached) = self.pairs.get(vector_path, ann_path) {
            return Ok(PairStep::Ready(cached));
        }
        match answer {
            Ok(true) => {
                let pair = Arc::new(pair);
                self.pairs.insert(vector_path, ann_path, share(&pair));
                Ok(PairStep::Ready(pair))
            },
            Ok(false) => Err(SemanticError::StaleAnn { path: ann_path.shown.clone() }),
            Err(cause) => Err(SemanticError::ValidateAnn { cause }),
        }
    }

    /// The pair of two index files: the cached one, or else what to do to open
    /// it.
    pub fn cached_semantic_pair(
        &mut self,
        vector_path: &AssetPath,
        ann_path: &AssetPath,
        event: PairEvent,
    ) -> (step: Result<PairStep, SemanticError>)
        requires
            old(self).wf(),
        ensures
            final(self).wf(),
            pair_transition(old(self)@, final(self)@, *vector_path, *ann_path, event, step),
    {
        if let Some(cached) = self.pairs.get(vector_path, ann_path) {
            return Ok(PairStep::Ready(cached));
        }
        match event {
            PairEvent::Begin => Ok(PairStep::OpenVector),
            PairEvent::VectorOpened(Ok(vectors)) => Ok(PairStep::CheckAnn(Arc::new(vectors))),
            PairEvent::VectorOpened(Err(cause)) => Err(
                SemanticError::OpenVectorIndex { path: vector_path.shown.clone(), cause },
            ),
            PairEvent::AnnChecked(vectors, true) => Ok(PairStep::LoadAnn(vectors)),
            PairEvent::AnnChecked(_, false) => Err(
                SemanticError::AnnNotFound { path: ann_path.shown.clone() },
            ),
            PairEvent::AnnLoaded(_, Err(cause)) => Err(SemanticError::OpenAnn { cause }),
            PairEvent::AnnLoaded(vectors, Ok(ann)) => {
                let answer = compare(&ann, &vectors);
                let pair = SemanticIndexPair { vector_index: vectors, ann_index: Arc::new(ann) };
                self.admit_pair(vector_path, ann_path, pair, answer)
            },
        }
    }

    /// Whose semantic assets are to be warmed: the data directory that they are
    /// kept under, and the id of the current embedder. Their paths are built from
    /// the two.
    pub fn semantic_assets_of(&self) -> (of: (&PathBuf, String))
        ensures
            *of.0 == self@.data_dir,
            of.1@ == self@.embedder_id(),
    {
        (&self.data_dir, self.embedder_id())
    }

    /// Warms the semantic assets of the current embedder: its two index files are
    /// located, and opened unless they are already.
    pub fn warm_semantic_assets<'a, 'e>(&'a mut self, event: AssetEvent<'e>) -> (step: Result<
        AssetStep<'a>,
        SemanticError,
    >)
        requires
            old(self).wf(),
        ensures
            final(self).wf(),
            asset_transition(old(self)@, final(self)@, event, step),
    {
        let current = self.embedder_id();
        let (assets, event) = match event {
            AssetEvent::Begin => {
                let (data_dir, embedder_id) = self.semantic_assets_of();
                return Ok(AssetStep::Locate { data_dir, embedder_id });
            },
            AssetEvent::Located { assets, vector_is_file, ann_is_file } => {
                if assets.embedder_id == current && !(vector_is_file && ann_is_file) {
                    return Err(
                        SemanticError::AssetsMissing {
                            embedder_id: current,
                            vector_path: assets.vector_path.shown.clone(),
                            ann_path: assets.ann_path.shown.clone(),
                        },
                    );
                }
                (assets, PairEvent::Begin)
            },
            AssetEvent::Pair { assets, event } => (assets, event),
        };
        if assets.embedder_id != current {
            let (data_dir, embedder_id) = self.semantic_assets_of();
            return Ok(AssetStep::Locate { data_dir, embedder_id });
        }
        let step = self.cached_semantic_pair(&assets.vector_path, &assets.ann_path, event);
        match step {
            Ok(PairStep::Ready(_)) => Ok(AssetStep::Done),
            Ok(other) => Ok(AssetStep::Pair(other)),
            Err(error) => Err(error),
        }
    }

    /// Searches the pair of two index files for the messages nearest to a query,
    /// at most `fetch_limit` of them, the best first; a filter that is
    /// `unrestricted` lets every hit through.
    pub fn semantic_search_approx(
        &mut self,
        vector_path: &AssetPath,
        ann_path: &AssetPath,
        fetch_limit: usize,
        unrestricted: bool,
        event: SearchEvent,
    ) -> (step: Result<SearchStep, SemanticError>)
        requires
            old(self).wf(),
        ensures
            final(self).wf(),
            search_transition(
                old(self)@,
                final(self)@,
                *vector_path,
                *ann_path,
                fetch_limit,
                unrestricted,
                event,
                step,
            ),
    {
        match event {
            SearchEvent::Pair(event) => {
                let step = self.cached_semantic_pair(vector_path, ann_path, event);
                match step {
                    Ok(PairStep::Ready(pair)) => {
                        let candidates: usize = candidate_count(fetch_limit);
                        let ef: usize = search_beam(candidates);
                        Ok(SearchStep::Search { pair, candidates, ef })
                    },
                    Ok(other) => Ok(SearchStep::Pair(other)),
                    Err(error) => Err(error),
                }
            },
            SearchEvent::Searched(Ok((hits, stats))) => {
                Ok(SearchStep::Done(rank_hits(&hits, unrestricted, fetch_limit), stats))
            },
            SearchEvent::Searched(Err(cause)) => Err(SemanticError::SearchFailed { cause }),
        }
    }

    /// Unloads all models, and lets go of every cached pair.
    pub fn unload_all(&mut self)
        requires
            old(self).wf(),
        ensures
            final(self).wf(),
            final(self)@ == old(self)@.unloaded(),
    {
        self.embedder = EmbedderSlot::Empty;
        self.reranker = None;
        self.embedder_name = "not-loaded".to_owned();
        self.reranker_name = "not-loaded".to_owned();
        self.pairs.clear();
    }
}

/// The error of a call for which there is no embedder.
fn not_loaded() -> (error: EmbedderError)
    ensures
        error@ == embedder_unavailable(),
{
    EmbedderError::EmbedderUnavailable {
        model: "unknown".to_owned(),
        reason: "embedder not loaded".to_owned(),
    }
}

} // verus!
