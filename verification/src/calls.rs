//! What calls of a model manager come to: one call told by what goes into it and
//! what comes out, and several told by each other.

use std::path::PathBuf;
use std::sync::Arc;

use frankensearch_index::{HnswIndex, VectorIndex};

use vstd::prelude::*;

use crate::ann::{ann_matches, SemanticIndexPair};
use crate::error::{EmbedderError, RerankerError, SemanticError};
use crate::models::{
    CallStep, EmbedBatchCall, EmbedCall, EmbedderInfo, EmbedderState, LoadedEmbedder,
    LoadedReranker, ManagerState, ModelManager, RerankCall, RerankerInfo, WarmEvent, WarmStep,
};
use crate::pair_cache::PairKey;
use crate::path::AssetPath;
use crate::ranking::{AnnHit, VectorSearchResult};
use crate::semantic::{
    AnnSearchStats, AssetEvent, AssetStep, PairEvent, PairStep, SearchEvent, SearchStep,
    SemanticAssets,
};

verus! {

/// A model that is loaded where there was no embedder is the one that is called,
/// under its own id and dimension, whatever they are; and nothing else changes
/// but the name.
pub proof fn loaded_model_is_the_embedder<E, R>(
    state: ManagerState<E, R>,
    info: EmbedderInfo<E>,
)
    requires
        state.embedder is Empty,
    ensures
        state.embedder_tried(Some(info)).active_embedder() == Some(info),
        state.embedder_tried(Some(info)).embedder_id() == info.id,
        state.embedder_tried(Some(info)).embedder_dimension() == info.dimension,
        state.embedder_tried(Some(info)) == (ManagerState {
            embedder: EmbedderState::Model(info),
            embedder_name: "MiniLM-L6-v2"@,
            ..state
        }),
{
}

/// Id and dimension are those of the embedder that is called; without one they
/// are stand-ins.
pub proof fn embedder_is_described_as_it_is<E, R>(state: ManagerState<E, R>)
    ensures
        match state.embedder {
            EmbedderState::Empty => state.active_embedder() is None && state.embedder_id()
                == "hash-384"@ && state.embedder_dimension() == 384,
            EmbedderState::Fallback => state.active_embedder() == Some(state.fallback)
                && state.embedder_id() == state.fallback.id && state.embedder_dimension()
                == state.fallback.dimension,
            EmbedderState::Model(info) => state.active_embedder() == Some(info)
                && state.embedder_id() == info.id && state.embedder_dimension() == info.dimension,
        },
{
}

/// What is handed to the manager as a loaded model is what its state speaks of:
/// the id, the dimension and the model itself.
pub proof fn loaded_models_are_held_as_they_are<E, R>(
    embedder: LoadedEmbedder<E>,
    reranker: LoadedReranker<R>,
)
    ensures
        embedder@.id == embedder.id@,
        embedder@.dimension == embedder.dimension,
        embedder@.model == embedder.model,
        reranker@.id == reranker.id@,
        reranker@.model == reranker.model,
{
}

/// A new manager reports nothing loaded and holds no pair, and asks for the models
/// under its own data directory.
pub proof fn new_manager_reports_nothing<'a, E, R, X>(
    data_dir: PathBuf,
    fallback_id: String,
    fallback_model: E,
    manager: &'a mut ModelManager<E, R>,
    ready: bool,
    id: String,
    name: String,
    dimension: usize,
    loaded: bool,
    reranker_id: String,
    reranker_name: String,
    reranker_loaded: bool,
    step: Result<WarmStep<'a>, EmbedderError>,
)
    requires
        call_ensures(
            ModelManager::<E, R>::new,
            (data_dir, fallback_id, fallback_model),
            *old(manager),
        ),
        call_ensures(ModelManager::<E, R>::is_ready, (&*old(manager),), ready),
        call_ensures(ModelManager::<E, R>::embedder_id, (&*old(manager),), id),
        call_ensures(ModelManager::<E, R>::embedder_name, (&*old(manager),), name),
        call_ensures(ModelManager::<E, R>::embedder_dimension, (&*old(manager),), dimension),
        call_ensures(ModelManager::<E, R>::embedder_loaded, (&*old(manager),), loaded),
        call_ensures(ModelManager::<E, R>::reranker_id, (&*old(manager),), reranker_id),
        call_ensures(ModelManager::<E, R>::reranker_name, (&*old(manager),), reranker_name),
        call_ensures(ModelManager::<E, R>::reranker_loaded, (&*old(manager),), reranker_loaded),
        call_ensures(
            ModelManager::<E, R>::warm_embedder::<X>,
            (manager, WarmEvent::Begin),
            step,
        ),
    ensures
        !ready && !loaded && !reranker_loaded,
        id@ == "hash-384"@,
        name@ == "not-loaded"@,
        dimension == 384,
        reranker_id@ == "none"@,
        reranker_name@ == "not-loaded"@,
        step matches Ok(WarmStep::Load(asked)) && *asked == data_dir,
        final(manager)@ == old(manager)@,
        forall|key: PairKey| !(#[trigger] old(manager)@.pairs.contains_key(key)),
{
}

/// The embedder that is reported is the one that is called, for one text and for
/// several, with the texts as they were given. Without one, a call asks for it to
/// be warmed, and fails if that was done already.
pub proof fn reported_embedder_is_the_one_called<'a, E, R>(
    manager: &'a ModelManager<E, R>,
    text: &'a str,
    texts: &'a [String],
    warmed: bool,
    single: Result<CallStep<EmbedCall<'a, E>>, EmbedderError>,
    batch: Result<CallStep<EmbedBatchCall<'a, E>>, EmbedderError>,
    id: String,
    dimension: usize,
    loaded: bool,
)
    requires
        call_ensures(ModelManager::<E, R>::embed, (manager, text, warmed), single),
        call_ensures(ModelManager::<E, R>::embed_batch, (manager, texts, warmed), batch),
        call_ensures(ModelManager::<E, R>::embedder_id, (manager,), id),
        call_ensures(ModelManager::<E, R>::embedder_dimension, (manager,), dimension),
        call_ensures(ModelManager::<E, R>::embedder_loaded, (manager,), loaded),
    ensures
        loaded ==> {
            &&& single matches Ok(CallStep::Call(call))
            &&& call.embedder.id@ == id@
            &&& call.embedder.dimension == dimension
            &&& call.text@ == text@
        },
        loaded ==> {
            &&& batch matches Ok(CallStep::Call(call))
            &&& call.embedder.id@ == id@
            &&& call.embedder.dimension == dimension
            &&& call.embedder.model == single->Ok_0->Call_0.embedder.model
            &&& call.texts@.len() == texts@.len()
            &&& forall|i: int|
                0 <= i < texts@.len() ==> (#[trigger] call.texts@[i])@ == texts@[i]@
        },
        !loaded ==> id@ == "hash-384"@ && dimension == 384,
        !loaded && !warmed ==> single matches Ok(CallStep::Warm),
        !loaded && !warmed ==> batch matches Ok(CallStep::Warm),
        !loaded && warmed ==> {
            &&& single matches Err(EmbedderError::EmbedderUnavailable { model, reason })
            &&& model@ == "unknown"@
            &&& reason@ == "embedder not loaded"@
        },
        !loaded && warmed ==> {
            &&& batch matches Err(EmbedderError::EmbedderUnavailable { model, reason })
            &&& model@ == "unknown"@
            &&& reason@ == "embedder not loaded"@
        },
{
    if loaded {
        let call = batch->Ok_0->Call_0;
        texts_are_passed_on(call.texts@, texts@);
    }
}

/// Slices and strings with the same texts agree one by one.
proof fn texts_are_passed_on(slices: Seq<&str>, strings: Seq<String>)
    requires
        crate::models::slices_text(slices) == crate::models::strings_text(strings),
    ensures
        slices.len() == strings.len(),
        forall|i: int| 0 <= i < strings.len() ==> (#[trigger] slices[i])@ == strings[i]@,
{
    assert(crate::models::slices_text(slices).len() == slices.len());
    assert(crate::models::strings_text(strings).len() == strings.len());
    assert forall|i: int| 0 <= i < strings.len() implies (#[trigger] slices[i])@ == strings[i]@ by {
        assert(crate::models::slices_text(slices)[i] == slices[i]@);
        assert(crate::models::strings_text(strings)[i] == strings[i]@);
    }
}

/// Once a model was loaded for a manager without an embedder, that model is the one
/// that is called, and its id and dimension are the ones reported. Reranker, pairs
/// and data directory are as before.
pub proof fn warmed_model_is_the_one_called<'a, E, R, X>(
    manager: &'a mut ModelManager<E, R>,
    model: LoadedEmbedder<E>,
    warm: Result<WarmStep<'a>, EmbedderError>,
    later: &'a ModelManager<E, R>,
    text: &'a str,
    warmed: bool,
    step: Result<CallStep<EmbedCall<'a, E>>, EmbedderError>,
    id: String,
    name: String,
    dimension: usize,
    loaded: bool,
    ready: bool,
)
    requires
        call_ensures(ModelManager::<E, R>::embedder_loaded, (&*old(manager),), false),
        call_ensures(
            ModelManager::<E, R>::warm_embedder::<X>,
            (manager, WarmEvent::Tried(Ok(model))),
            warm,
        ),
        *later == *final(manager),
        call_ensures(ModelManager::<E, R>::embed, (later, text, warmed), step),
        call_ensures(ModelManager::<E, R>::embedder_id, (later,), id),
        call_ensures(ModelManager::<E, R>::embedder_name, (later,), name),
        call_ensures(ModelManager::<E, R>::embedder_dimension, (later,), dimension),
        call_ensures(ModelManager::<E, R>::embedder_loaded, (later,), loaded),
        call_ensures(ModelManager::<E, R>::is_ready, (later,), ready),
    ensures
        warm matches Ok(WarmStep::Ready),
        loaded && ready,
        step matches Ok(CallStep::Call(call)) && call.embedder.id@ == model.id@
            && call.embedder.dimension == model.dimension && call.embedder.model == model.model
            && call.text@ == text@,
        id@ == model.id@,
        name@ == "MiniLM-L6-v2"@,
        dimension == model.dimension,
        later@.data_dir == old(manager)@.data_dir,
        later@.fallback == old(manager)@.fallback,
        later@.reranker == old(manager)@.reranker,
        later@.reranker_name == old(manager)@.reranker_name,
        later@.pairs == old(manager)@.pairs,
{
}

/// Where the model of a new manager could not be loaded, whatever the cause, the
/// fallback that the manager was made with is the one that is called.
pub proof fn fallback_is_called_in_place_of_the_model<'a, E, R, X>(
    data_dir: PathBuf,
    fallback_id: String,
    fallback_model: E,
    manager: &'a mut ModelManager<E, R>,
    cause: X,
    warm: Result<WarmStep<'a>, EmbedderError>,
    later: &'a ModelManager<E, R>,
    text: &'a str,
    warmed: bool,
    step: Result<CallStep<EmbedCall<'a, E>>, EmbedderError>,
    id: String,
    name: String,
    dimension: usize,
    loaded: bool,
)
    requires
        call_ensures(
            ModelManager::<E, R>::new,
            (data_dir, fallback_id, fallback_model),
            *old(manager),
        ),
        call_ensures(
            ModelManager::<E, R>::warm_embedder::<X>,
            (manager, WarmEvent::Tried(Err(cause))),
            warm,
        ),
        *later == *final(manager),
        call_ensures(ModelManager::<E, R>::embed, (later, text, warmed), step),
        call_ensures(ModelManager::<E, R>::embedder_id, (later,), id),
        call_ensures(ModelManager::<E, R>::embedder_name, (later,), name),
        call_ensures(ModelManager::<E, R>::embedder_dimension, (later,), dimension),
        call_ensures(ModelManager::<E, R>::embedder_loaded, (later,), loaded),
    ensures
        warm matches Ok(WarmStep::Ready),
        loaded,
        step matches Ok(CallStep::Call(call)) && call.embedder.id@ == fallback_id@
            && call.embedder.dimension == 384 && call.embedder.model == fallback_model && call.text@
            == text@,
        id@ == fallback_id@,
        name@ == "hash-fallback"@,
        dimension == 384,
{
}

/// Where the model could not be loaded, the fallback stands in, and nothing else
/// changes but the name.
pub proof fn failed_model_is_replaced_by_the_fallback<E, R>(state: ManagerState<E, R>)
    requires
        state.embedder is Empty,
    ensures
        state.embedder_tried(None).active_embedder() == Some(state.fallback),
        state.embedder_tried(None) == (ManagerState {
            embedder: EmbedderState::Fallback,
            embedder_name: "hash-fallback"@,
            ..state
        }),
{
}

/// Once there is an embedder, warming it again changes nothing, whatever comes of
/// another try; before, it asks for the model under the data directory.
pub proof fn embedder_is_warmed_once<'a, E, R, X>(
    manager: &'a mut ModelManager<E, R>,
    event: WarmEvent<Result<LoadedEmbedder<E>, X>>,
    loaded: bool,
    step: Result<WarmStep<'a>, EmbedderError>,
)
    requires
        call_ensures(ModelManager::<E, R>::embedder_loaded, (&*old(manager),), loaded),
        call_ensures(ModelManager::<E, R>::warm_embedder::<X>, (manager, event), step),
    ensures
        loaded ==> final(manager)@ == old(manager)@ && (step matches Ok(WarmStep::Ready)),
        !loaded && event is Begin ==> final(manager)@ == old(manager)@ && (step matches Ok(
            WarmStep::Load(asked),
        ) && *asked == old(manager)@.data_dir),
        event is Tried ==> step matches Ok(WarmStep::Ready),
        event is Tried ==> final(manager)@.embedder !is Empty,
{
}

/// The reranker that is reported is the one that is called, with the query and the
/// documents as they were given. Without one, a call asks for it to be warmed, and
/// fails if that was done already.
pub proof fn reported_reranker_is_the_one_called<'a, E, R>(
    manager: &'a ModelManager<E, R>,
    query: &'a str,
    documents: &'a [String],
    warmed: bool,
    step: Result<CallStep<RerankCall<'a, R>>, RerankerError>,
    id: String,
    loaded: bool,
)
    requires
        call_ensures(ModelManager::<E, R>::rerank, (manager, query, documents, warmed), step),
        call_ensures(ModelManager::<E, R>::reranker_id, (manager,), id),
        call_ensures(ModelManager::<E, R>::reranker_loaded, (manager,), loaded),
    ensures
        loaded ==> {
            &&& step matches Ok(CallStep::Call(call))
            &&& call.reranker.id@ == id@
            &&& call.query@ == query@
            &&& call.documents@.len() == documents@.len()
            &&& forall|i: int|
                0 <= i < documents@.len() ==> (#[trigger] call.documents@[i])@ == documents@[i]@
        },
        !loaded ==> id@ == "none"@,
        !loaded && !warmed ==> step matches Ok(CallStep::Warm),
        !loaded && warmed ==> {
            &&& step matches Err(RerankerError::RerankerUnavailable { model })
            &&& model@ == "reranker"@
        },
{
    if loaded {
        let call = step->Ok_0->Call_0;
        texts_are_passed_on(call.documents@, documents@);
    }
}

/// Once a reranker was loaded for a manager without one, it is the one that is
/// called, and its id is the one reported. Embedder, pairs and data directory are
/// as before.
pub proof fn warmed_reranker_is_the_one_called<'a, E, R, X>(
    manager: &'a mut ModelManager<E, R>,
    model: LoadedReranker<R>,
    warm: Result<WarmStep<'a>, X>,
    later: &'a ModelManager<E, R>,
    query: &'a str,
    documents: &'a [String],
    warmed: bool,
    step: Result<CallStep<RerankCall<'a, R>>, RerankerError>,
    id: String,
    name: String,
    loaded: bool,
    ready: bool,
)
    requires
        call_ensures(ModelManager::<E, R>::reranker_loaded, (&*old(manager),), false),
        call_ensures(
            ModelManager::<E, R>::warm_reranker::<X>,
            (manager, WarmEvent::Tried(Ok(model))),
            warm,
        ),
        *later == *final(manager),
        call_ensures(ModelManager::<E, R>::rerank, (later, query, documents, warmed), step),
        call_ensures(ModelManager::<E, R>::reranker_id, (later,), id),
        call_ensures(ModelManager::<E, R>::reranker_name, (later,), name),
        call_ensures(ModelManager::<E, R>::reranker_loaded, (later,), loaded),
        call_ensures(ModelManager::<E, R>::is_ready, (later,), ready),
    ensures
        warm matches Ok(WarmStep::Ready),
        loaded && ready,
        step matches Ok(CallStep::Call(call)) && call.reranker.id@ == model.id@
            && call.reranker.model == model.model,
        id@ == model.id@,
        name@ == "ms-marco-MiniLM-L-6-v2"@,
        later@.data_dir == old(manager)@.data_dir,
        later@.fallback == old(manager)@.fallback,
        later@.embedder == old(manager)@.embedder,
        later@.embedder_name == old(manager)@.embedder_name,
        later@.pairs == old(manager)@.pairs,
{
}

/// A reranker that could not be loaded is no reranker: the cause is handed on,
/// nothing changes, and the next try asks for the model again. Once there is one,
/// warming it again changes nothing.
pub proof fn reranker_is_warmed_until_it_loads<'a, E, R, X>(
    manager: &'a mut ModelManager<E, R>,
    event: WarmEvent<Result<LoadedReranker<R>, X>>,
    loaded: bool,
    step: Result<WarmStep<'a>, X>,
)
    requires
        call_ensures(ModelManager::<E, R>::reranker_loaded, (&*old(manager),), loaded),
        call_ensures(ModelManager::<E, R>::warm_reranker::<X>, (manager, event), step),
    ensures
        loaded ==> final(manager)@ == old(manager)@ && (step matches Ok(WarmStep::Ready)),
        !loaded && event is Begin ==> final(manager)@ == old(manager)@ && (step matches Ok(
            WarmStep::Load(asked),
        ) && *asked == old(manager)@.data_dir),
        !loaded ==> match event {
            WarmEvent::Tried(Err(cause)) => final(manager)@ == old(manager)@ && step == Err::<
                WarmStep,
                X,
            >(cause),
            _ => true,
        },
{
}

/// A reranker that is loaded where there was none is the one that is held; nothing
/// else changes but the name.
pub proof fn loaded_reranker_is_the_reranker<E, R>(
    state: ManagerState<E, R>,
    info: RerankerInfo<R>,
)
    requires
        state.reranker is None,
    ensures
        state.reranker_loaded(info).reranker_id() == info.id,
        state.reranker_loaded(info) == (ManagerState {
            reranker: Some(info),
            reranker_name: "ms-marco-MiniLM-L-6-v2"@,
            ..state
        }),
{
}

/// A manager is ready as soon as it has one of the two models.
pub proof fn manager_is_ready_with_either_model<E, R>(
    manager: &ModelManager<E, R>,
    ready: bool,
    embedder: bool,
    reranker: bool,
)
    requires
        call_ensures(ModelManager::<E, R>::is_ready, (manager,), ready),
        call_ensures(ModelManager::<E, R>::embedder_loaded, (manager,), embedder),
        call_ensures(ModelManager::<E, R>::reranker_loaded, (manager,), reranker),
    ensures
        ready == (embedder || reranker),
{
}

/// An unloaded manager reports nothing and holds no pair, but keeps its data
/// directory and its fallback: it can be warmed again.
pub proof fn unloaded_manager_starts_over<'a, E, R>(
    manager: &'a mut ModelManager<E, R>,
    later: &'a ModelManager<E, R>,
    ready: bool,
    id: String,
    name: String,
    dimension: usize,
    loaded: bool,
    reranker_id: String,
    reranker_name: String,
    reranker_loaded: bool,
    key: PairKey,
)
    requires
        call_ensures(ModelManager::<E, R>::unload_all, (manager,), ()),
        *later == *final(manager),
        call_ensures(ModelManager::<E, R>::is_ready, (later,), ready),
        call_ensures(ModelManager::<E, R>::embedder_id, (later,), id),
        call_ensures(ModelManager::<E, R>::embedder_name, (later,), name),
        call_ensures(ModelManager::<E, R>::embedder_dimension, (later,), dimension),
        call_ensures(ModelManager::<E, R>::embedder_loaded, (later,), loaded),
        call_ensures(ModelManager::<E, R>::reranker_id, (later,), reranker_id),
        call_ensures(ModelManager::<E, R>::reranker_name, (later,), reranker_name),
        call_ensures(ModelManager::<E, R>::reranker_loaded, (later,), reranker_loaded),
    ensures
        !ready && !loaded && !reranker_loaded,
        id@ == "hash-384"@,
        name@ == "not-loaded"@,
        dimension == 384,
        reranker_id@ == "none"@,
        reranker_name@ == "not-loaded"@,
        !later@.pairs.contains_key(key),
        later@.embedder is Empty,
        later@.reranker is None,
        later@.data_dir == old(manager)@.data_dir,
        later@.fallback == old(manager)@.fallback,
{
}

/// A pair that is held for two files is the answer to whatever happens on the way
/// to it, by any paths of the same keys; and nothing changes.
pub proof fn held_pair_is_the_answer<E, R>(
    manager: &mut ModelManager<E, R>,
    vector_path: &AssetPath,
    ann_path: &AssetPath,
    event: PairEvent,
    step: Result<PairStep, SemanticError>,
)
    requires
        call_ensures(
            ModelManager::<E, R>::cached_semantic_pair,
            (manager, vector_path, ann_path, event),
            step,
        ),
        old(manager)@.pairs.contains_key((vector_path.key@, ann_path.key@)),
    ensures
        final(manager)@ == old(manager)@,
        step matches Ok(PairStep::Ready(pair)) && *pair == old(manager)@.pairs[(
            vector_path.key@,
            ann_path.key@,
        )],
{
}

/// The way to a pair that is not held: its vector index is opened, its graph is
/// looked for, then loaded. Each step follows from the event before it, and hands
/// on the vector index that was opened; each failure ends the way with its own
/// error, and nothing changes until the graph is loaded.
pub proof fn pair_is_opened_step_by_step<E, R>(
    manager: &mut ModelManager<E, R>,
    vector_path: &AssetPath,
    ann_path: &AssetPath,
    event: PairEvent,
    step: Result<PairStep, SemanticError>,
)
    requires
        call_ensures(
            ModelManager::<E, R>::cached_semantic_pair,
            (manager, vector_path, ann_path, event),
            step,
        ),
        !old(manager)@.pairs.contains_key((vector_path.key@, ann_path.key@)),
    ensures
        match event {
            PairEvent::Begin => step matches Ok(PairStep::OpenVector),
            PairEvent::VectorOpened(Ok(vectors)) => step matches Ok(PairStep::CheckAnn(opened))
                && *opened == vectors,
            PairEvent::VectorOpened(Err(cause)) => step matches Err(
                SemanticError::OpenVectorIndex { path, cause: why },
            ) && path@ == vector_path.shown@ && why@ == cause@,
            PairEvent::AnnChecked(vectors, true) => step matches Ok(PairStep::LoadAnn(kept))
                && *kept == *vectors,
            PairEvent::AnnChecked(_, false) => step matches Err(
                SemanticError::AnnNotFound { path },
            ) && path@ == ann_path.shown@,
            PairEvent::AnnLoaded(_, Err(cause)) => step matches Err(
                SemanticError::OpenAnn { cause: why },
            ) && why@ == cause@,
            PairEvent::AnnLoaded(vectors, Ok(ann)) => match step {
                Ok(PairStep::Ready(pair)) => *pair.vector_index == *vectors && *pair.ann_index
                    == ann,
                Err(SemanticError::StaleAnn { path }) => path@ == ann_path.shown@,
                Err(SemanticError::ValidateAnn { .. }) => true,
                _ => false,
            },
        },
        final(manager)@ == old(manager)@ || step matches Ok(PairStep::Ready(_)),
{
}

/// A loaded graph is judged by what the outside comparison answers of it and its
/// vector index. Found to match, the two are held and handed out; found not to
/// match, the graph is stale; and where they could not be compared, that is why the
/// pair fails.
pub(crate) proof fn loaded_graph_is_judged_by_the_comparison<E, R>(
    manager: &mut ModelManager<E, R>,
    vector_path: &AssetPath,
    ann_path: &AssetPath,
    vectors: Arc<VectorIndex>,
    ann: HnswIndex,
    step: Result<PairStep, SemanticError>,
)
    requires
        call_ensures(
            ModelManager::<E, R>::cached_semantic_pair,
            (manager, vector_path, ann_path, PairEvent::AnnLoaded(vectors, Ok(ann))),
            step,
        ),
        !old(manager)@.pairs.contains_key((vector_path.key@, ann_path.key@)),
    ensures
        exists|answer: Result<bool, String>|
            {
                &&& #[trigger] call_ensures(ann_matches, (&ann, &*vectors), answer)
                &&& match answer {
                    Ok(true) => step matches Ok(PairStep::Ready(pair)) && *pair.vector_index
                        == *vectors && *pair.ann_index == ann && final(manager)@ == (ManagerState {
                        pairs: old(manager)@.pairs.insert((vector_path.key@, ann_path.key@), *pair),
                        ..old(manager)@
                    }),
                    Ok(false) => final(manager)@ == old(manager)@ && (step matches Err(
                        SemanticError::StaleAnn { path },
                    ) && path@ == ann_path.shown@),
                    Err(cause) => final(manager)@ == old(manager)@ && (step matches Err(
                        SemanticError::ValidateAnn { cause: why },
                    ) && why@ == cause@),
                }
            },
{
    let key = vector_path.pair_key(*ann_path);
    let pair = SemanticIndexPair { vector_index: vectors, ann_index: Arc::new(ann) };
    let answer = choose|answer: Result<bool, String>|
        crate::ann::may_answer(ann, *vectors, answer) && #[trigger] crate::models::pair_compared(
            old(manager)@,
            final(manager)@,
            key,
            pair,
            *ann_path,
            answer,
            step,
        );
    crate::ann::answers_come_from_the_outside_comparison(&ann, &vectors, answer);
}

/// Whatever the dimension, a pair enters the cache only where the outside
/// comparison answered that its graph matches its vector index; it is that of the
/// two files asked for, and made of what was opened from them.
pub(crate) proof fn only_matching_pairs_enter_the_cache<E, R>(
    manager: &mut ModelManager<E, R>,
    vector_path: &AssetPath,
    ann_path: &AssetPath,
    event: PairEvent,
    step: Result<PairStep, SemanticError>,
    key: PairKey,
)
    requires
        call_ensures(
            ModelManager::<E, R>::cached_semantic_pair,
            (manager, vector_path, ann_path, event),
            step,
        ),
        !old(manager)@.pairs.contains_key(key),
        final(manager)@.pairs.contains_key(key),
    ensures
        key == (vector_path.key@, ann_path.key@),
        event matches PairEvent::AnnLoaded(vectors, Ok(ann)) && call_ensures(
            ann_matches,
            (&ann, &*vectors),
            Ok(true),
        ) && *final(manager)@.pairs[key].vector_index == *vectors
            && *final(manager)@.pairs[key].ann_index == ann,
        step matches Ok(PairStep::Ready(pair)) && *pair == final(manager)@.pairs[key],
{
    if let PairEvent::AnnLoaded(vectors, Ok(ann)) = event {
        if !old(manager)@.pairs.contains_key((vector_path.key@, ann_path.key@)) {
            loaded_graph_is_judged_by_the_comparison(
                manager,
                vector_path,
                ann_path,
                vectors,
                ann,
                step,
            );
        }
    }
}

/// What an answer does to a pair that is not held yet: it is taken in if and only if
/// the answer is that it matches.
pub proof fn pair_is_admitted_by_the_answer<E, R>(
    manager: &mut ModelManager<E, R>,
    vector_path: &AssetPath,
    ann_path: &AssetPath,
    pair: SemanticIndexPair,
    answer: Result<bool, String>,
    step: Result<PairStep, SemanticError>,
)
    requires
        call_ensures(
            ModelManager::<E, R>::admit_pair,
            (manager, vector_path, ann_path, pair, answer),
            step,
        ),
    ensures
        old(manager)@.pairs.contains_key((vector_path.key@, ann_path.key@)) ==> final(manager)@
            == old(manager)@ && (step matches Ok(PairStep::Ready(held)) && *held == old(manager)@.pairs[(vector_path.key@, ann_path.key@)]),
        !old(manager)@.pairs.contains_key((vector_path.key@, ann_path.key@)) ==> match answer {
            Ok(true) => (step matches Ok(PairStep::Ready(held)) && *held == pair) && final(manager)@
                == (ManagerState {
                pairs: old(manager)@.pairs.insert((vector_path.key@, ann_path.key@), pair),
                ..old(manager)@
            }),
            Ok(false) => final(manager)@ == old(manager)@ && (step matches Err(
                SemanticError::StaleAnn { path },
            ) && path@ == ann_path.shown@),
            Err(cause) => final(manager)@ == old(manager)@ && (step matches Err(
                SemanticError::ValidateAnn { cause: why },
            ) && why@ == cause@),
        },
{
}

/// A pair that was handed out once is handed out again, and no file is opened for
/// it: whatever happens later on the way to it, by any paths of the same keys.
pub proof fn pair_is_handed_out_again<E, R>(
    manager: &mut ModelManager<E, R>,
    vector_path: &AssetPath,
    ann_path: &AssetPath,
    event: PairEvent,
    pair: Arc<SemanticIndexPair>,
    later: &mut ModelManager<E, R>,
    later_vector_path: &AssetPath,
    later_ann_path: &AssetPath,
    later_event: PairEvent,
    step: Result<PairStep, SemanticError>,
)
    requires
        call_ensures(
            ModelManager::<E, R>::cached_semantic_pair,
            (manager, vector_path, ann_path, event),
            Ok(PairStep::Ready(pair)),
        ),
        *old(later) == *final(manager),
        later_vector_path.key@ == vector_path.key@,
        later_ann_path.key@ == ann_path.key@,
        call_ensures(
            ModelManager::<E, R>::cached_semantic_pair,
            (later, later_vector_path, later_ann_path, later_event),
            step,
        ),
    ensures
        final(later)@ == old(later)@,
        step matches Ok(PairStep::Ready(again)) && *again == *pair,
{
}

/// The way to one pair leaves all else alone: the models and their names, the data
/// directory, and the pair of any two files other than those asked for.
pub proof fn way_to_a_pair_leaves_all_else_alone<E, R>(
    manager: &mut ModelManager<E, R>,
    vector_path: &AssetPath,
    ann_path: &AssetPath,
    event: PairEvent,
    step: Result<PairStep, SemanticError>,
    other: PairKey,
)
    requires
        call_ensures(
            ModelManager::<E, R>::cached_semantic_pair,
            (manager, vector_path, ann_path, event),
            step,
        ),
        other.0 != vector_path.key@ || other.1 != ann_path.key@,
    ensures
        final(manager)@.data_dir == old(manager)@.data_dir,
        final(manager)@.fallback == old(manager)@.fallback,
        final(manager)@.embedder == old(manager)@.embedder,
        final(manager)@.reranker == old(manager)@.reranker,
        final(manager)@.embedder_name == old(manager)@.embedder_name,
        final(manager)@.reranker_name == old(manager)@.reranker_name,
        final(manager)@.pairs.contains_key(other) == old(manager)@.pairs.contains_key(other),
        old(manager)@.pairs.contains_key(other) ==> final(manager)@.pairs[other] == old(manager)@.pairs[other],
{
}

/// Warming begins with the question where the assets are: those of the embedder
/// that is reported, under the manager's data directory.
pub proof fn warming_begins_with_locating<'a, 'e, E, R>(
    manager: &'a mut ModelManager<E, R>,
    id: String,
    step: Result<AssetStep<'a>, SemanticError>,
)
    requires
        call_ensures(ModelManager::<E, R>::embedder_id, (&*old(manager),), id),
        call_ensures(
            ModelManager::<E, R>::warm_semantic_assets,
            (manager, AssetEvent::<'e>::Begin),
            step,
        ),
    ensures
        final(manager)@ == old(manager)@,
        step matches Ok(AssetStep::Locate { data_dir, embedder_id }) && *data_dir == old(manager)@.data_dir && embedder_id@ == id@,
{
}

/// Assets that were located for another embedder than the one reported are left
/// alone, and the right ones are to be located.
pub proof fn assets_of_another_embedder_are_left_alone<'a, 'e, E, R>(
    manager: &'a mut ModelManager<E, R>,
    id: String,
    assets: &'e SemanticAssets,
    vector_is_file: bool,
    ann_is_file: bool,
    inner: PairEvent,
    event: AssetEvent<'e>,
    step: Result<AssetStep<'a>, SemanticError>,
)
    requires
        call_ensures(ModelManager::<E, R>::embedder_id, (&*old(manager),), id),
        assets.embedder_id@ != id@,
        event == (AssetEvent::Located { assets, vector_is_file, ann_is_file }) || event == (
        AssetEvent::Pair { assets, event: inner }),
        call_ensures(ModelManager::<E, R>::warm_semantic_assets, (manager, event), step),
    ensures
        final(manager)@ == old(manager)@,
        step matches Ok(AssetStep::Locate { data_dir, embedder_id }) && *data_dir == old(manager)@.data_dir && embedder_id@ == id@,
{
}

/// Assets that were located for the embedder that is reported: if a file is
/// missing, that is the error, with the id and both paths. Else the pair of the two
/// files is opened, unless it is held already: then the assets are warm.
pub proof fn located_assets_are_opened_if_both_are_there<'a, 'e, E, R>(
    manager: &'a mut ModelManager<E, R>,
    id: String,
    assets: &'e SemanticAssets,
    vector_is_file: bool,
    ann_is_file: bool,
    step: Result<AssetStep<'a>, SemanticError>,
)
    requires
        call_ensures(ModelManager::<E, R>::embedder_id, (&*old(manager),), id),
        assets.embedder_id@ == id@,
        call_ensures(
            ModelManager::<E, R>::warm_semantic_assets,
            (manager, AssetEvent::Located { assets, vector_is_file, ann_is_file }),
            step,
        ),
    ensures
        final(manager)@ == old(manager)@,
        !vector_is_file || !ann_is_file ==> {
            &&& step matches Err(SemanticError::AssetsMissing { embedder_id, vector_path, ann_path })
            &&& embedder_id@ == id@
            &&& vector_path@ == assets.vector_path.shown@
            &&& ann_path@ == assets.ann_path.shown@
        },
        vector_is_file && ann_is_file && old(manager)@.pairs.contains_key(
            (assets.vector_path.key@, assets.ann_path.key@),
        ) ==> step matches Ok(AssetStep::Done),
        vector_is_file && ann_is_file && !old(manager)@.pairs.contains_key(
            (assets.vector_path.key@, assets.ann_path.key@),
        ) ==> step matches Ok(AssetStep::Pair(PairStep::OpenVector)),
{
}

/// Assets whose pair is held are warm, whatever happens on the way to it.
pub proof fn assets_with_a_held_pair_are_warm<'a, 'e, E, R>(
    manager: &'a mut ModelManager<E, R>,
    id: String,
    assets: &'e SemanticAssets,
    event: PairEvent,
    step: Result<AssetStep<'a>, SemanticError>,
)
    requires
        call_ensures(ModelManager::<E, R>::embedder_id, (&*old(manager),), id),
        assets.embedder_id@ == id@,
        old(manager)@.pairs.contains_key((assets.vector_path.key@, assets.ann_path.key@)),
        call_ensures(
            ModelManager::<E, R>::warm_semantic_assets,
            (manager, AssetEvent::Pair { assets, event }),
            step,
        ),
    ensures
        final(manager)@ == old(manager)@,
        step matches Ok(AssetStep::Done),
{
}

/// The way to warm assets whose pair is not held is the way to their pair: each
/// step follows from the event before it, and hands on the vector index that was
/// opened. With the graph loaded it ends: the pair is held and the assets are warm,
/// or the graph is refused.
pub proof fn assets_are_warmed_step_by_step<'a, 'e, E, R>(
    manager: &'a mut ModelManager<E, R>,
    id: String,
    assets: &'e SemanticAssets,
    event: PairEvent,
    step: Result<AssetStep<'a>, SemanticError>,
)
    requires
        call_ensures(ModelManager::<E, R>::embedder_id, (&*old(manager),), id),
        assets.embedder_id@ == id@,
        !old(manager)@.pairs.contains_key((assets.vector_path.key@, assets.ann_path.key@)),
        call_ensures(
            ModelManager::<E, R>::warm_semantic_assets,
            (manager, AssetEvent::Pair { assets, event }),
            step,
        ),
    ensures
        match event {
            PairEvent::Begin => step matches Ok(AssetStep::Pair(PairStep::OpenVector)),
            PairEvent::VectorOpened(Ok(vectors)) => step matches Ok(
                AssetStep::Pair(PairStep::CheckAnn(opened)),
            ) && *opened == vectors,
            PairEvent::VectorOpened(Err(cause)) => step matches Err(
                SemanticError::OpenVectorIndex { path, cause: why },
            ) && path@ == assets.vector_path.shown@ && why@ == cause@,
            PairEvent::AnnChecked(vectors, true) => step matches Ok(
                AssetStep::Pair(PairStep::LoadAnn(kept)),
            ) && *kept == *vectors,
            PairEvent::AnnChecked(_, false) => step matches Err(
                SemanticError::AnnNotFound { path },
            ) && path@ == assets.ann_path.shown@,
            PairEvent::AnnLoaded(_, Err(cause)) => step matches Err(
                SemanticError::OpenAnn { cause: why },
            ) && why@ == cause@,
            PairEvent::AnnLoaded(vectors, Ok(ann)) => match step {
                Ok(AssetStep::Done) => {
                    let key = (assets.vector_path.key@, assets.ann_path.key@);
                    &&& final(manager)@.pairs.contains_key(key)
                    &&& *final(manager)@.pairs[key].vector_index == *vectors
                    &&& *final(manager)@.pairs[key].ann_index == ann
                },
                Err(SemanticError::StaleAnn { path }) => path@ == assets.ann_path.shown@,
                Err(SemanticError::ValidateAnn { .. }) => true,
                _ => false,
            },
        },
        final(manager)@ == old(manager)@ || step matches Ok(AssetStep::Done),
{
}

/// Where nothing fails, warming the assets of the reported embedder takes five
/// calls and then ends: they are located, the vector index is opened, the graph is
/// looked for and loaded, and the pair is compared. Then either it is held, made of
/// the two indices that were opened, or the graph is refused and nothing is held.
pub proof fn warming_runs_to_its_end<'a, 'e, E, R>(
    first: &'a mut ModelManager<E, R>,
    second: &'a mut ModelManager<E, R>,
    third: &'a mut ModelManager<E, R>,
    fourth: &'a mut ModelManager<E, R>,
    fifth: &'a mut ModelManager<E, R>,
    id: String,
    assets: &'e SemanticAssets,
    vectors: VectorIndex,
    opened: Arc<VectorIndex>,
    ann: HnswIndex,
    steps: Seq<Result<AssetStep<'a>, SemanticError>>,
)
    requires
        call_ensures(ModelManager::<E, R>::embedder_id, (&*old(first),), id),
        assets.embedder_id@ == id@,
        !old(first)@.pairs.contains_key((assets.vector_path.key@, assets.ann_path.key@)),
        steps.len() == 5,
        call_ensures(
            ModelManager::<E, R>::warm_semantic_assets,
            (first, AssetEvent::<'e>::Begin),
            steps[0],
        ),
        *old(second) == *final(first),
        call_ensures(
            ModelManager::<E, R>::warm_semantic_assets,
            (second, AssetEvent::Located { assets, vector_is_file: true, ann_is_file: true }),
            steps[1],
        ),
        *old(third) == *final(second),
        call_ensures(
            ModelManager::<E, R>::warm_semantic_assets,
            (third, AssetEvent::Pair { assets, event: PairEvent::VectorOpened(Ok(vectors)) }),
            steps[2],
        ),
        *old(fourth) == *final(third),
        steps[2] matches Ok(AssetStep::Pair(PairStep::CheckAnn(handed))) ==> opened == handed,
        call_ensures(
            ModelManager::<E, R>::warm_semantic_assets,
            (fourth, AssetEvent::Pair { assets, event: PairEvent::AnnChecked(opened, true) }),
            steps[3],
        ),
        *old(fifth) == *final(fourth),
        call_ensures(
            ModelManager::<E, R>::warm_semantic_assets,
            (fifth, AssetEvent::Pair { assets, event: PairEvent::AnnLoaded(opened, Ok(ann)) }),
            steps[4],
        ),
    ensures
        steps[0] matches Ok(AssetStep::Locate { data_dir, embedder_id }) && *data_dir == old(first)@.data_dir && embedder_id@ == id@,
        steps[1] matches Ok(AssetStep::Pair(PairStep::OpenVector)),
        steps[2] matches Ok(AssetStep::Pair(PairStep::CheckAnn(handed))) && *handed == vectors,
        steps[3] matches Ok(AssetStep::Pair(PairStep::LoadAnn(kept))) && *kept == vectors,
        match steps[4] {
            Ok(AssetStep::Done) => exists|pair: SemanticIndexPair|
                *pair.vector_index == vectors && *pair.ann_index == ann && #[trigger] old(first)@.pairs.insert((assets.vector_path.key@, assets.ann_path.key@), pair) == final(fifth)@.pairs,
            Err(SemanticError::StaleAnn { path }) => path@ == assets.ann_path.shown@ && final(fifth)@ == old(first)@,
            Err(SemanticError::ValidateAnn { .. }) => final(fifth)@ == old(first)@,
            _ => false,
        },
{
    if steps[4] is Ok {
        let key = (assets.vector_path.key@, assets.ann_path.key@);
        let pair = final(fifth)@.pairs[key];
        assert(old(first)@.pairs.insert(key, pair) == final(fifth)@.pairs);
    }
}

/// Warming leaves all else alone: the models and their names, the data directory,
/// and the pair of any two files other than the assets.
pub proof fn warming_leaves_all_else_alone<'a, 'e, E, R>(
    manager: &'a mut ModelManager<E, R>,
    assets: &'e SemanticAssets,
    vector_is_file: bool,
    ann_is_file: bool,
    inner: PairEvent,
    event: AssetEvent<'e>,
    step: Result<AssetStep<'a>, SemanticError>,
    other: PairKey,
)
    requires
        event == AssetEvent::<'e>::Begin || event == (AssetEvent::Located {
            assets,
            vector_is_file,
            ann_is_file,
        }) || event == (AssetEvent::Pair { assets, event: inner }),
        call_ensures(ModelManager::<E, R>::warm_semantic_assets, (manager, event), step),
        other.0 != assets.vector_path.key@ || other.1 != assets.ann_path.key@,
    ensures
        final(manager)@.data_dir == old(manager)@.data_dir,
        final(manager)@.fallback == old(manager)@.fallback,
        final(manager)@.embedder == old(manager)@.embedder,
        final(manager)@.reranker == old(manager)@.reranker,
        final(manager)@.embedder_name == old(manager)@.embedder_name,
        final(manager)@.reranker_name == old(manager)@.reranker_name,
        final(manager)@.pairs.contains_key(other) == old(manager)@.pairs.contains_key(other),
        old(manager)@.pairs.contains_key(other) ==> final(manager)@.pairs[other] == old(manager)@.pairs[other],
{
}

/// Whatever the dimension, warming takes a pair into the cache only where the
/// outside comparison answered that its graph matches its vector index.
pub(crate) proof fn warming_takes_in_only_matching_pairs<'a, 'e, E, R>(
    manager: &'a mut ModelManager<E, R>,
    event: AssetEvent<'e>,
    step: Result<AssetStep<'a>, SemanticError>,
    key: PairKey,
)
    requires
        call_ensures(ModelManager::<E, R>::warm_semantic_assets, (manager, event), step),
        !old(manager)@.pairs.contains_key(key),
        final(manager)@.pairs.contains_key(key),
    ensures
        event matches AssetEvent::Pair { assets, event: PairEvent::AnnLoaded(vectors, Ok(ann)) }
            && key == (assets.vector_path.key@, assets.ann_path.key@) && call_ensures(
            ann_matches,
            (&ann, &*vectors),
            Ok(true),
        ) && *final(manager)@.pairs[key].vector_index == *vectors
            && *final(manager)@.pairs[key].ann_index == ann,
        step matches Ok(AssetStep::Done),
{
    let pair = final(manager)@.pairs[key];
    crate::ann::answers_come_from_the_outside_comparison(
        &pair.ann_index,
        &pair.vector_index,
        Ok(true),
    );
}

/// A pair that is held is searched at once, whatever happens on the way to it:
/// for four candidates for each wanted result, as far as that can be counted, with
/// a beam as wide, but no narrower than 100.
pub proof fn held_pair_is_searched<E, R>(
    manager: &mut ModelManager<E, R>,
    vector_path: &AssetPath,
    ann_path: &AssetPath,
    fetch_limit: usize,
    unrestricted: bool,
    event: PairEvent,
    step: Result<SearchStep, SemanticError>,
)
    requires
        call_ensures(
            ModelManager::<E, R>::semantic_search_approx,
            (manager, vector_path, ann_path, fetch_limit, unrestricted, SearchEvent::Pair(event)),
            step,
        ),
        old(manager)@.pairs.contains_key((vector_path.key@, ann_path.key@)),
    ensures
        final(manager)@ == old(manager)@,
        step matches Ok(SearchStep::Search { pair, candidates, ef }) && {
            &&& *pair == old(manager)@.pairs[(vector_path.key@, ann_path.key@)]
            &&& 4 * fetch_limit <= usize::MAX ==> candidates == 4 * fetch_limit
            &&& 4 * fetch_limit > usize::MAX ==> candidates == usize::MAX
            &&& ef >= candidates && ef >= 100
            &&& ef == candidates || ef == 100
        },
{
}

/// A search of a pair that is not held opens it first, by the same steps as ever:
/// each follows from the event before it, and hands on the vector index that was
/// opened. With the graph loaded, the pair is held and searched, or the graph is
/// refused.
pub proof fn pair_is_opened_to_be_searched<E, R>(
    manager: &mut ModelManager<E, R>,
    vector_path: &AssetPath,
    ann_path: &AssetPath,
    fetch_limit: usize,
    unrestricted: bool,
    event: PairEvent,
    step: Result<SearchStep, SemanticError>,
)
    requires
        call_ensures(
            ModelManager::<E, R>::semantic_search_approx,
            (manager, vector_path, ann_path, fetch_limit, unrestricted, SearchEvent::Pair(event)),
            step,
        ),
        !old(manager)@.pairs.contains_key((vector_path.key@, ann_path.key@)),
    ensures
        match event {
            PairEvent::Begin => step matches Ok(SearchStep::Pair(PairStep::OpenVector)),
            PairEvent::VectorOpened(Ok(vectors)) => step matches Ok(
                SearchStep::Pair(PairStep::CheckAnn(opened)),
            ) && *opened == vectors,
            PairEvent::VectorOpened(Err(cause)) => step matches Err(
                SemanticError::OpenVectorIndex { path, cause: why },
            ) && path@ == vector_path.shown@ && why@ == cause@,
            PairEvent::AnnChecked(vectors, true) => step matches Ok(
                SearchStep::Pair(PairStep::LoadAnn(kept)),
            ) && *kept == *vectors,
            PairEvent::AnnChecked(_, false) => step matches Err(
                SemanticError::AnnNotFound { path },
            ) && path@ == ann_path.shown@,
            PairEvent::AnnLoaded(_, Err(cause)) => step matches Err(
                SemanticError::OpenAnn { cause: why },
            ) && why@ == cause@,
            PairEvent::AnnLoaded(vectors, Ok(ann)) => match step {
                Ok(SearchStep::Search { pair, candidates, ef }) => {
                    &&& *pair.vector_index == *vectors
                    &&& *pair.ann_index == ann
                    &&& final(manager)@ == (ManagerState {
                        pairs: old(manager)@.pairs.insert((vector_path.key@, ann_path.key@), *pair),
                        ..old(manager)@
                    })
                    &&& 4 * fetch_limit <= usize::MAX ==> candidates == 4 * fetch_limit
                    &&& 4 * fetch_limit > usize::MAX ==> candidates == usize::MAX
                    &&& ef >= candidates && ef >= 100
                    &&& ef == candidates || ef == 100
                },
                Err(SemanticError::StaleAnn { path }) => path@ == ann_path.shown@,
                Err(SemanticError::ValidateAnn { .. }) => true,
                _ => false,
            },
        },
        final(manager)@ == old(manager)@ || step->Ok_0 is Search,
        step is Err ==> final(manager)@ == old(manager)@,
{
}

/// A search that came back ends: with the figures it came with, or with the cause
/// of its failure. Nothing changes.
pub proof fn search_that_came_back_ends<E, R>(
    manager: &mut ModelManager<E, R>,
    vector_path: &AssetPath,
    ann_path: &AssetPath,
    fetch_limit: usize,
    unrestricted: bool,
    outcome: Result<(Vec<AnnHit>, AnnSearchStats), String>,
    step: Result<SearchStep, SemanticError>,
)
    requires
        call_ensures(
            ModelManager::<E, R>::semantic_search_approx,
            (
                manager,
                vector_path,
                ann_path,
                fetch_limit,
                unrestricted,
                SearchEvent::Searched(outcome),
            ),
            step,
        ),
    ensures
        final(manager)@ == old(manager)@,
        match outcome {
            Ok((_, stats)) => step matches Ok(SearchStep::Done(results, figures)) && figures
                == stats && results@.len() <= fetch_limit,
            Err(cause) => step matches Err(SemanticError::SearchFailed { cause: why }) && why@
                == cause@,
        },
{
}

/// Every result of a search is a hit that the filter of that search lets through:
/// unless the filter is unrestricted, one that it matches. It has the message, the
/// chunk and the score of that hit, and no hit of the message that is let through
/// has a greater score.
pub proof fn search_results_are_let_through<E, R>(
    manager: &mut ModelManager<E, R>,
    vector_path: &AssetPath,
    ann_path: &AssetPath,
    fetch_limit: usize,
    unrestricted: bool,
    hits: Vec<AnnHit>,
    stats: AnnSearchStats,
    results: Vec<VectorSearchResult>,
    figures: AnnSearchStats,
    k: int,
)
    requires
        call_ensures(
            ModelManager::<E, R>::semantic_search_approx,
            (
                manager,
                vector_path,
                ann_path,
                fetch_limit,
                unrestricted,
                SearchEvent::Searched(Ok((hits, stats))),
            ),
            Ok(SearchStep::Done(results, figures)),
        ),
        0 <= k < results@.len(),
    ensures
        exists|i: int|
            {
                &&& 0 <= i < hits@.len()
                &&& !unrestricted ==> (#[trigger] hits@[i]).matches
                &&& hits@[i].parsed is Some
                &&& hits@[i].parsed->0.message_id == results@[k].message_id
                &&& hits@[i].parsed->0.chunk_idx == results@[k].chunk_idx
                &&& hits@[i].score.bits == results@[k].score.bits
                &&& forall|j: int|
                    0 <= j < i && (unrestricted || hits@[j].matches) && hits@[j].parsed is Some
                        && hits@[j].parsed->0.message_id == results@[k].message_id
                        ==> results@[k].score.greater((#[trigger] hits@[j]).score)
                        || hits@[j].score.is_nan()
            },
        forall|j: int|
            0 <= j < hits@.len() && (unrestricted || hits@[j].matches) && hits@[j].parsed is Some
                && hits@[j].parsed->0.message_id == results@[k].message_id ==> !(
            #[trigger] hits@[j]).score.greater(results@[k].score),
{
    let at = crate::ranking::ranked_result_is_the_best_hit_let_through(
        hits@,
        unrestricted,
        fetch_limit as nat,
        results@,
        k,
    );
    assert(!unrestricted ==> hits@[at].matches);
}

/// The results of a search come best first, one for each message: a later one never
/// has a numerically greater score, nor, by the bits, a score that is higher in the
/// total order; and of two with one score the smaller message id comes first.
pub proof fn search_results_come_best_first<E, R>(
    manager: &mut ModelManager<E, R>,
    vector_path: &AssetPath,
    ann_path: &AssetPath,
    fetch_limit: usize,
    unrestricted: bool,
    hits: Vec<AnnHit>,
    stats: AnnSearchStats,
    results: Vec<VectorSearchResult>,
    figures: AnnSearchStats,
    i: int,
    j: int,
)
    requires
        call_ensures(
            ModelManager::<E, R>::semantic_search_approx,
            (
                manager,
                vector_path,
                ann_path,
                fetch_limit,
                unrestricted,
                SearchEvent::Searched(Ok((hits, stats))),
            ),
            Ok(SearchStep::Done(results, figures)),
        ),
        0 <= i < j < results@.len(),
    ensures
        results@[i].message_id != results@[j].message_id,
        !results@[j].score.greater(results@[i].score),
        results@[i].score.bits < 0x8000_0000 && results@[j].score.bits < 0x8000_0000
            ==> results@[i].score.bits >= results@[j].score.bits,
        results@[i].score.bits >= 0x8000_0000 ==> results@[j].score.bits >= results@[i].score.bits,
        results@[i].score.bits == results@[j].score.bits ==> results@[i].message_id
            < results@[j].message_id,
{
    crate::ranking::ranked_scores_never_rise(
        hits@,
        unrestricted,
        fetch_limit as nat,
        results@,
        i,
        j,
    );
}

/// A search passes over a hit that its filter lets through only for as many results
/// as were wanted, all of other messages. Where the scores of the hit's message are
/// all numbers, the hit has no greater score than any of them.
pub proof fn search_passes_over_none_that_is_better<E, R>(
    manager: &mut ModelManager<E, R>,
    vector_path: &AssetPath,
    ann_path: &AssetPath,
    fetch_limit: usize,
    unrestricted: bool,
    hits: Vec<AnnHit>,
    stats: AnnSearchStats,
    results: Vec<VectorSearchResult>,
    figures: AnnSearchStats,
    i: int,
)
    requires
        call_ensures(
            ModelManager::<E, R>::semantic_search_approx,
            (
                manager,
                vector_path,
                ann_path,
                fetch_limit,
                unrestricted,
                SearchEvent::Searched(Ok((hits, stats))),
            ),
            Ok(SearchStep::Done(results, figures)),
        ),
        0 <= i < hits@.len(),
        unrestricted || hits@[i].matches,
        hits@[i].parsed is Some,
        forall|k: int|
            0 <= k < results@.len() ==> (#[trigger] results@[k]).message_id
                != hits@[i].parsed->0.message_id,
    ensures
        results@.len() == fetch_limit,
        (forall|j: int|
            0 <= j < hits@.len() && (unrestricted || hits@[j].matches) && hits@[j].parsed is Some
                && hits@[j].parsed->0.message_id == hits@[i].parsed->0.message_id ==> !(
            #[trigger] hits@[j]).score.is_nan()) ==> forall|k: int|
            0 <= k < results@.len() ==> !hits@[i].score.greater((#[trigger] results@[k]).score),
{
    let at = crate::ranking::left_out_message_is_no_better_than_any_ranked(
        hits@,
        unrestricted,
        fetch_limit as nat,
        results@,
        i,
    );
}

/// Two searches that come back with the same hits, for the same filter and limit,
/// have the same results, whatever managers and files they are made with.
pub proof fn searches_with_the_same_hits_agree<E, R>(
    one: &mut ModelManager<E, R>,
    two: &mut ModelManager<E, R>,
    vector_path: &AssetPath,
    ann_path: &AssetPath,
    other_vector_path: &AssetPath,
    other_ann_path: &AssetPath,
    fetch_limit: usize,
    unrestricted: bool,
    hits: Vec<AnnHit>,
    other_hits: Vec<AnnHit>,
    stats: AnnSearchStats,
    other_stats: AnnSearchStats,
    step: Result<SearchStep, SemanticError>,
    other_step: Result<SearchStep, SemanticError>,
)
    requires
        hits@ == other_hits@,
        call_ensures(
            ModelManager::<E, R>::semantic_search_approx,
            (
                one,
                vector_path,
                ann_path,
                fetch_limit,
                unrestricted,
                SearchEvent::Searched(Ok((hits, stats))),
            ),
            step,
        ),
        call_ensures(
            ModelManager::<E, R>::semantic_search_approx,
            (
                two,
                other_vector_path,
                other_ann_path,
                fetch_limit,
                unrestricted,
                SearchEvent::Searched(Ok((other_hits, other_stats))),
            ),
            other_step,
        ),
    ensures
        step matches Ok(SearchStep::Done(results, figures)) && figures == stats,
        other_step matches Ok(SearchStep::Done(results, figures)) && figures == other_stats
            && step->Ok_0->Done_0@ == results@,
{
    crate::ranking::ranking_is_unique(
        hits@,
        unrestricted,
        fetch_limit as nat,
        step->Ok_0->Done_0@,
        other_step->Ok_0->Done_0@,
    );
}

/// Where nothing fails, a search of a pair that is not held takes five calls and
/// then ends: the vector index is opened, the graph is looked for, loaded and found
/// to match, and searched; and what it comes back with is ranked. A refused graph
/// ends it before.
pub proof fn search_runs_to_its_end<E, R>(
    first: &mut ModelManager<E, R>,
    second: &mut ModelManager<E, R>,
    third: &mut ModelManager<E, R>,
    fourth: &mut ModelManager<E, R>,
    fifth: &mut ModelManager<E, R>,
    vector_path: &AssetPath,
    ann_path: &AssetPath,
    fetch_limit: usize,
    unrestricted: bool,
    vectors: VectorIndex,
    opened: Arc<VectorIndex>,
    ann: HnswIndex,
    hits: Vec<AnnHit>,
    stats: AnnSearchStats,
    steps: Seq<Result<SearchStep, SemanticError>>,
)
    requires
        !old(first)@.pairs.contains_key((vector_path.key@, ann_path.key@)),
        steps.len() == 5,
        call_ensures(
            ModelManager::<E, R>::semantic_search_approx,
            (
                first,
                vector_path,
                ann_path,
                fetch_limit,
                unrestricted,
                SearchEvent::Pair(PairEvent::Begin),
            ),
            steps[0],
        ),
        *old(second) == *final(first),
        call_ensures(
            ModelManager::<E, R>::semantic_search_approx,
            (
                second,
                vector_path,
                ann_path,
                fetch_limit,
                unrestricted,
                SearchEvent::Pair(PairEvent::VectorOpened(Ok(vectors))),
            ),
            steps[1],
        ),
        *old(third) == *final(second),
        steps[1] matches Ok(SearchStep::Pair(PairStep::CheckAnn(handed))) ==> opened == handed,
        call_ensures(
            ModelManager::<E, R>::semantic_search_approx,
            (
                third,
                vector_path,
                ann_path,
                fetch_limit,
                unrestricted,
                SearchEvent::Pair(PairEvent::AnnChecked(opened, true)),
            ),
            steps[2],
        ),
        *old(fourth) == *final(third),
        call_ensures(
            ModelManager::<E, R>::semantic_search_approx,
            (
                fourth,
                vector_path,
                ann_path,
                fetch_limit,
                unrestricted,
                SearchEvent::Pair(PairEvent::AnnLoaded(opened, Ok(ann))),
            ),
            steps[3],
        ),
        *old(fifth) == *final(fourth),
        call_ensures(
            ModelManager::<E, R>::semantic_search_approx,
            (
                fifth,
                vector_path,
                ann_path,
                fetch_limit,
                unrestricted,
                SearchEvent::Searched(Ok((hits, stats))),
            ),
            steps[4],
        ),
    ensures
        steps[0] matches Ok(SearchStep::Pair(PairStep::OpenVector)),
        steps[1] matches Ok(SearchStep::Pair(PairStep::CheckAnn(handed))) && *handed == vectors,
        steps[2] matches Ok(SearchStep::Pair(PairStep::LoadAnn(kept))) && *kept == vectors,
        match steps[3] {
            Ok(SearchStep::Search { pair, .. }) => *pair.vector_index == vectors
                && *pair.ann_index == ann && final(fifth)@.pairs == old(first)@.pairs.insert(
                (vector_path.key@, ann_path.key@),
                *pair,
            ),
            Err(SemanticError::StaleAnn { .. }) => final(fourth)@ == old(first)@,
            Err(SemanticError::ValidateAnn { .. }) => final(fourth)@ == old(first)@,
            _ => false,
        },
        steps[4] matches Ok(SearchStep::Done(_, figures)) && figures == stats,
{
}

/// A search leaves all else alone: the models and their names, the data directory,
/// and the pair of any two files other than those searched.
pub proof fn search_leaves_all_else_alone<E, R>(
    manager: &mut ModelManager<E, R>,
    vector_path: &AssetPath,
    ann_path: &AssetPath,
    fetch_limit: usize,
    unrestricted: bool,
    event: SearchEvent,
    step: Result<SearchStep, SemanticError>,
    other: PairKey,
)
    requires
        call_ensures(
            ModelManager::<E, R>::semantic_search_approx,
            (manager, vector_path, ann_path, fetch_limit, unrestricted, event),
            step,
        ),
        other.0 != vector_path.key@ || other.1 != ann_path.key@,
    ensures
        final(manager)@.data_dir == old(manager)@.data_dir,
        final(manager)@.fallback == old(manager)@.fallback,
        final(manager)@.embedder == old(manager)@.embedder,
        final(manager)@.reranker == old(manager)@.reranker,
        final(manager)@.embedder_name == old(manager)@.embedder_name,
        final(manager)@.reranker_name == old(manager)@.reranker_name,
        final(manager)@.pairs.contains_key(other) == old(manager)@.pairs.contains_key(other),
        old(manager)@.pairs.contains_key(other) ==> final(manager)@.pairs[other] == old(manager)@.pairs[other],
{
}

/// Whatever the dimension, a search takes a pair into the cache only where the
/// outside comparison answered that its graph matches its vector index.
pub(crate) proof fn search_takes_in_only_matching_pairs<E, R>(
    manager: &mut ModelManager<E, R>,
    vector_path: &AssetPath,
    ann_path: &AssetPath,
    fetch_limit: usize,
    unrestricted: bool,
    event: SearchEvent,
    step: Result<SearchStep, SemanticError>,
    key: PairKey,
)
    requires
        call_ensures(
            ModelManager::<E, R>::semantic_search_approx,
            (manager, vector_path, ann_path, fetch_limit, unrestricted, event),
            step,
        ),
        !old(manager)@.pairs.contains_key(key),
        final(manager)@.pairs.contains_key(key),
    ensures
        key == (vector_path.key@, ann_path.key@),
        event matches SearchEvent::Pair(PairEvent::AnnLoaded(vectors, Ok(ann))) && call_ensures(
            ann_matches,
            (&ann, &*vectors),
            Ok(true),
        ) && *final(manager)@.pairs[key].vector_index == *vectors
            && *final(manager)@.pairs[key].ann_index == ann,
        step matches Ok(SearchStep::Search { pair, .. }) && *pair == final(manager)@.pairs[key],
{
    let pair = final(manager)@.pairs[key];
    crate::ann::answers_come_from_the_outside_comparison(
        &pair.ann_index,
        &pair.vector_index,
        Ok(true),
    );
}

/// Whose assets are to be warmed: the id is the one that the embedder is reported
/// under.
pub proof fn assets_to_warm_are_those_reported<'a, E, R>(
    manager: &'a ModelManager<E, R>,
    of: (&'a PathBuf, String),
    id: String,
)
    requires
        call_ensures(ModelManager::<E, R>::semantic_assets_of, (manager,), of),
        call_ensures(ModelManager::<E, R>::embedder_id, (manager,), id),
    ensures
        *of.0 == manager@.data_dir,
        of.1@ == id@,
{
}

/// A new manager takes every call, and one that took a call takes every other after
/// it: no input is turned down by a condition on the call.
pub proof fn manager_takes_every_call<'a, 'e, E, R, X, Y>(
    data_dir: PathBuf,
    fallback_id: String,
    fallback_model: E,
    made: &'a mut ModelManager<E, R>,
    manager: &'a mut ModelManager<E, R>,
    vector_path: &AssetPath,
    ann_path: &AssetPath,
    fetch_limit: usize,
    unrestricted: bool,
    embedder_event: WarmEvent<Result<LoadedEmbedder<E>, X>>,
    embedder_step: Result<WarmStep<'a>, EmbedderError>,
    reranker_event: WarmEvent<Result<LoadedReranker<R>, Y>>,
    reranker_step: Result<WarmStep<'a>, Y>,
    pair: SemanticIndexPair,
    answer: Result<bool, String>,
    pair_event: PairEvent,
    pair_step: Result<PairStep, SemanticError>,
    asset_event: AssetEvent<'e>,
    asset_step: Result<AssetStep<'a>, SemanticError>,
    search_event: SearchEvent,
    search_step: Result<SearchStep, SemanticError>,
)
    requires
        ({
            ||| call_ensures(
                ModelManager::<E, R>::new,
                (data_dir, fallback_id, fallback_model),
                *old(manager),
            )
            ||| *old(manager) == *final(made) && {
                ||| call_ensures(
                    ModelManager::<E, R>::warm_embedder::<X>,
                    (made, embedder_event),
                    embedder_step,
                )
                ||| call_ensures(
                    ModelManager::<E, R>::warm_reranker::<Y>,
                    (made, reranker_event),
                    reranker_step,
                )
                ||| call_ensures(
                    ModelManager::<E, R>::admit_pair,
                    (made, vector_path, ann_path, pair, answer),
                    pair_step,
                )
                ||| call_ensures(
                    ModelManager::<E, R>::cached_semantic_pair,
                    (made, vector_path, ann_path, pair_event),
                    pair_step,
                )
                ||| call_ensures(
                    ModelManager::<E, R>::warm_semantic_assets,
                    (made, asset_event),
                    asset_step,
                )
                ||| call_ensures(
                    ModelManager::<E, R>::semantic_search_approx,
                    (made, vector_path, ann_path, fetch_limit, unrestricted, search_event),
                    search_step,
                )
                ||| call_ensures(ModelManager::<E, R>::unload_all, (made,), ())
            }
        }),
    ensures
        call_requires(ModelManager::<E, R>::warm_embedder::<X>, (manager, embedder_event)),
        call_requires(ModelManager::<E, R>::warm_reranker::<Y>, (manager, reranker_event)),
        call_requires(
            ModelManager::<E, R>::admit_pair,
            (manager, vector_path, ann_path, pair, answer),
        ),
        call_requires(
            ModelManager::<E, R>::cached_semantic_pair,
            (manager, vector_path, ann_path, pair_event),
        ),
        call_requires(ModelManager::<E, R>::warm_semantic_assets, (manager, asset_event)),
        call_requires(
            ModelManager::<E, R>::semantic_search_approx,
            (manager, vector_path, ann_path, fetch_limit, unrestricted, search_event),
        ),
        call_requires(ModelManager::<E, R>::unload_all, (manager,)),
{
}

/// Every manager answers questions about its models, and takes every text and every
/// document.
pub proof fn manager_takes_every_question<E, R>(
    manager: &ModelManager<E, R>,
    text: &str,
    texts: &[String],
    warmed: bool,
)
    ensures
        call_requires(ModelManager::<E, R>::is_ready, (manager,)),
        call_requires(ModelManager::<E, R>::embedder_id, (manager,)),
        call_requires(ModelManager::<E, R>::embedder_name, (manager,)),
        call_requires(ModelManager::<E, R>::embedder_dimension, (manager,)),
        call_requires(ModelManager::<E, R>::embedder_loaded, (manager,)),
        call_requires(ModelManager::<E, R>::reranker_id, (manager,)),
        call_requires(ModelManager::<E, R>::reranker_name, (manager,)),
        call_requires(ModelManager::<E, R>::reranker_loaded, (manager,)),
        call_requires(ModelManager::<E, R>::semantic_assets_of, (manager,)),
        call_requires(ModelManager::<E, R>::embed, (manager, text, warmed)),
        call_requires(ModelManager::<E, R>::embed_batch, (manager, texts, warmed)),
        call_requires(ModelManager::<E, R>::rerank, (manager, text, texts, warmed)),
{
}

} // verus!
