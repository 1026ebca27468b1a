use std::path::PathBuf;

use frankensearch_embed::HashEmbedder;

use model_daemon::error::{EmbedderError, RerankerError};
use model_daemon::models::{
    CallStep, LoadedEmbedder, LoadedReranker, ModelManager, WarmEvent, WarmStep,
};

type Manager = ModelManager<HashEmbedder, &'static str>;

fn manager_at(data_dir: &str) -> Manager {
    ModelManager::new(
        PathBuf::from(data_dir),
        "fnv1a-384".to_string(),
        HashEmbedder::default_384(),
    )
}

fn test_data_dir() -> &'static str {
    "tests/fixtures"
}

/// Warms the embedder where no model files are found.
fn warm_without_model(manager: &mut Manager) -> Result<(), EmbedderError> {
    if let WarmStep::Load(_) = manager.warm_embedder::<String>(WarmEvent::Begin)? {
        let missing: Result<LoadedEmbedder<HashEmbedder>, String> =
            Err("model files missing".to_string());
        manager.warm_embedder(WarmEvent::Tried(missing))?;
    }
    Ok(())
}

/// Embeds a text, warming the embedder first where that is needed.
fn embed(manager: &mut Manager, text: &str) -> Result<Vec<f32>, EmbedderError> {
    let warmed = matches!(manager.embed(text, false)?, CallStep::Warm);
    if warmed {
        warm_without_model(manager)?;
    }
    match manager.embed(text, warmed)? {
        CallStep::Call(call) => Ok(call.embedder.model.embed_sync(call.text)),
        CallStep::Warm => panic!("a warmed manager asks for no second warming"),
    }
}

fn minilm() -> LoadedEmbedder<HashEmbedder> {
    LoadedEmbedder {
        id: "minilm-256".to_string(),
        dimension: 256,
        model: HashEmbedder::default_256(),
    }
}

fn cross_encoder() -> LoadedReranker<&'static str> {
    LoadedReranker {
        id: "ms-marco".to_string(),
        model: "cross encoder",
    }
}

#[test]
fn test_model_manager_creation() {
    let manager = manager_at(test_data_dir());
    assert!(!manager.is_ready());
    assert!(!manager.embedder_loaded());
    assert!(!manager.reranker_loaded());
}

#[test]
fn test_embedder_fallback_on_missing_model() {
    let mut manager = manager_at("/tmp/nonexistent");

    let result = warm_without_model(&mut manager);
    assert!(result.is_ok());

    assert!(manager.embedder_loaded());
    assert_eq!(manager.embedder_name(), "hash-fallback");
}

#[test]
fn test_embedder_dimension() {
    let manager = manager_at(test_data_dir());
    assert_eq!(manager.embedder_dimension(), 384);
}

#[test]
fn test_unload_all() {
    let mut manager = manager_at(test_data_dir());
    let _ = warm_without_model(&mut manager);

    assert!(manager.embedder_loaded());

    manager.unload_all();

    assert!(!manager.embedder_loaded());
    assert!(!manager.reranker_loaded());
}

#[test]
fn test_embed_with_fallback() {
    let mut manager = manager_at("/tmp/nonexistent");

    let result = embed(&mut manager, "test text");
    assert!(result.is_ok());

    let embedding = result.unwrap();
    assert_eq!(embedding.len(), 384);
}

#[test]
fn new_manager_answers_with_stand_ins() {
    let manager = manager_at(test_data_dir());
    assert_eq!(manager.embedder_id(), "hash-384");
    assert_eq!(manager.embedder_name(), "not-loaded");
    assert_eq!(manager.reranker_id(), "none");
    assert_eq!(manager.reranker_name(), "not-loaded");
}

#[test]
fn warming_loads_from_the_data_directory() {
    let mut manager = manager_at("/srv/data");
    let expected = PathBuf::from("/srv/data");
    assert_eq!(
        manager.warm_embedder::<String>(WarmEvent::Begin),
        Ok(WarmStep::Load(&expected))
    );
    assert_eq!(
        manager.warm_reranker::<String>(WarmEvent::Begin),
        Ok(WarmStep::Load(&expected))
    );
    assert!(!manager.is_ready());
}

#[test]
fn loaded_model_is_used_under_its_name() {
    let mut manager = manager_at(test_data_dir());
    let step = manager.warm_embedder::<String>(WarmEvent::Tried(Ok(minilm())));
    assert_eq!(step, Ok(WarmStep::Ready));
    assert!(manager.is_ready());
    assert_eq!(manager.embedder_name(), "MiniLM-L6-v2");
    assert_eq!(manager.embedder_id(), "minilm-256");
    assert_eq!(manager.embedder_dimension(), 256);
    assert_eq!(embed(&mut manager, "some text").unwrap().len(), 256);
}

#[test]
fn fallback_keeps_its_id_and_dimension() {
    let mut manager = manager_at(test_data_dir());
    warm_without_model(&mut manager).unwrap();
    assert_eq!(manager.embedder_id(), "fnv1a-384");
    assert_eq!(manager.embedder_dimension(), 384);
}

#[test]
fn first_embedder_stays() {
    let mut manager = manager_at(test_data_dir());
    warm_without_model(&mut manager).unwrap();
    assert_eq!(
        manager.warm_embedder::<String>(WarmEvent::Begin),
        Ok(WarmStep::Ready)
    );
    let _ = manager.warm_embedder::<String>(WarmEvent::Tried(Ok(minilm())));
    assert_eq!(manager.embedder_name(), "hash-fallback");
    assert_eq!(manager.embedder_dimension(), 384);
}

#[test]
fn reranker_failure_is_passed_on_and_changes_nothing() {
    let mut manager = manager_at(test_data_dir());
    let failed: Result<LoadedReranker<&'static str>, String> = Err("no such model".to_string());
    assert_eq!(
        manager.warm_reranker(WarmEvent::Tried(failed)),
        Err("no such model".to_string())
    );
    assert!(!manager.reranker_loaded());
    assert_eq!(manager.reranker_name(), "not-loaded");
}

#[test]
fn loaded_reranker_stays_and_has_its_name() {
    let mut manager = manager_at(test_data_dir());
    let step = manager.warm_reranker::<String>(WarmEvent::Tried(Ok(cross_encoder())));
    assert_eq!(step, Ok(WarmStep::Ready));
    assert!(manager.reranker_loaded());
    assert_eq!(manager.reranker_id(), "ms-marco");
    assert_eq!(manager.reranker_name(), "ms-marco-MiniLM-L-6-v2");
    let failed: Result<LoadedReranker<&'static str>, String> = Err("late".to_string());
    assert_eq!(
        manager.warm_reranker(WarmEvent::Tried(failed)),
        Ok(WarmStep::Ready)
    );
    assert!(!manager.embedder_loaded());
}

#[test]
fn any_loaded_model_makes_the_manager_ready() {
    let mut reranking = manager_at(test_data_dir());
    assert!(!reranking.is_ready());
    let _ = reranking.warm_reranker::<String>(WarmEvent::Tried(Ok(cross_encoder())));
    assert!(!reranking.embedder_loaded());
    assert!(reranking.is_ready());
    reranking.unload_all();
    assert!(!reranking.is_ready());

    let mut embedding = manager_at(test_data_dir());
    warm_without_model(&mut embedding).unwrap();
    assert!(!embedding.reranker_loaded());
    assert!(embedding.is_ready());
}

#[test]
fn models_load_in_either_order() {
    let mut first = manager_at(test_data_dir());
    let _ = first.warm_embedder::<String>(WarmEvent::Tried(Ok(minilm())));
    let _ = first.warm_reranker::<String>(WarmEvent::Tried(Ok(cross_encoder())));
    let mut second = manager_at(test_data_dir());
    let _ = second.warm_reranker::<String>(WarmEvent::Tried(Ok(cross_encoder())));
    let _ = second.warm_embedder::<String>(WarmEvent::Tried(Ok(minilm())));
    assert_eq!(first.embedder_id(), second.embedder_id());
    assert_eq!(first.embedder_name(), second.embedder_name());
    assert_eq!(first.reranker_id(), second.reranker_id());
    assert_eq!(first.reranker_name(), second.reranker_name());
}

#[test]
fn unloading_undoes_both_loads() {
    let mut manager = manager_at(test_data_dir());
    let _ = manager.warm_embedder::<String>(WarmEvent::Tried(Ok(minilm())));
    let _ = manager.warm_reranker::<String>(WarmEvent::Tried(Ok(cross_encoder())));
    manager.unload_all();
    assert_eq!(manager.embedder_id(), "hash-384");
    assert_eq!(manager.embedder_name(), "not-loaded");
    assert_eq!(manager.embedder_dimension(), 384);
    assert_eq!(manager.reranker_id(), "none");
    assert_eq!(manager.reranker_name(), "not-loaded");
    let expected = PathBuf::from(test_data_dir());
    assert_eq!(
        manager.warm_embedder::<String>(WarmEvent::Begin),
        Ok(WarmStep::Load(&expected))
    );
}

#[test]
fn embedding_without_an_embedder_is_refused_once_warmed() {
    let manager = manager_at(test_data_dir());
    let texts = vec!["a".to_string()];
    assert!(matches!(manager.embed("a", false), Ok(CallStep::Warm)));
    assert!(matches!(
        manager.embed_batch(&texts, false),
        Ok(CallStep::Warm)
    ));
    let refused = EmbedderError::EmbedderUnavailable {
        model: "unknown".to_string(),
        reason: "embedder not loaded".to_string(),
    };
    assert_eq!(manager.embed("a", true).unwrap_err(), refused);
    assert_eq!(manager.embed_batch(&texts, true).unwrap_err(), refused);
}

#[test]
fn batch_goes_to_the_embedder_text_by_text() {
    let mut manager = manager_at(test_data_dir());
    warm_without_model(&mut manager).unwrap();
    let texts = vec!["first".to_string(), String::new(), "third".to_string()];
    match manager.embed_batch(&texts, false).unwrap() {
        CallStep::Call(call) => {
            assert_eq!(call.texts, vec!["first", "", "third"]);
            assert_eq!(call.embedder.id, "fnv1a-384");
        }
        CallStep::Warm => panic!("the embedder is loaded"),
    }
}

#[test]
fn rerank_needs_a_reranker() {
    let mut manager = manager_at(test_data_dir());
    let documents = vec!["one".to_string(), "two".to_string()];
    assert!(matches!(
        manager.rerank("query", &documents, false),
        Ok(CallStep::Warm)
    ));
    assert_eq!(
        manager.rerank("query", &documents, true).unwrap_err(),
        RerankerError::RerankerUnavailable {
            model: "reranker".to_string()
        }
    );
    let _ = manager.warm_reranker::<String>(WarmEvent::Tried(Ok(cross_encoder())));
    match manager.rerank("query", &documents, false).unwrap() {
        CallStep::Call(call) => {
            assert_eq!(call.reranker.model, "cross encoder");
            assert_eq!(call.query, "query");
            assert_eq!(call.documents, vec!["one", "two"]);
        }
        CallStep::Warm => panic!("the reranker is loaded"),
    }
}
