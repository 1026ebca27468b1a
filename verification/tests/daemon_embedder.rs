use std::collections::HashSet;

use model_daemon::daemon_embedder::{
    BatchStep, DaemonMiniLmEmbedder, ModelCategory, ModelTier,
};
use model_daemon::error::EmbedderError;
use model_daemon::text::decimal;

fn empty(reason: &str) -> EmbedderError {
    EmbedderError::InvalidConfig {
        field: "input_text".to_string(),
        value: "(empty)".to_string(),
        reason: reason.to_string(),
    }
}

#[test]
fn request_ids_are_numbered_from_one() {
    let mut embedder = DaemonMiniLmEmbedder::new("daemon");
    assert_eq!(embedder.next_request_id(), "daemon-embed-1");
    assert_eq!(embedder.next_request_id(), "daemon-embed-2");
    let mut last = String::new();
    for _ in 0..10 {
        last = embedder.next_request_id();
    }
    assert_eq!(last, "daemon-embed-12");
}

#[test]
fn request_ids_do_not_repeat() {
    let mut embedder = DaemonMiniLmEmbedder::new("daemon");
    let mut seen = HashSet::new();
    for _ in 0..1000 {
        assert!(seen.insert(embedder.next_request_id()));
    }
}

#[test]
fn decimal_writes_every_digit() {
    assert_eq!(decimal(0), "0");
    assert_eq!(decimal(9), "9");
    assert_eq!(decimal(10), "10");
    assert_eq!(decimal(1234567890), "1234567890");
    assert_eq!(decimal(u64::MAX), u64::MAX.to_string());
}

#[test]
fn text_goes_to_the_daemon_with_an_id() {
    let mut embedder = DaemonMiniLmEmbedder::new("daemon");
    let call = embedder.embed_sync("hello").unwrap();
    assert_eq!(*call.daemon, "daemon");
    assert_eq!(call.text, "hello");
    assert_eq!(call.request_id, "daemon-embed-1");
}

#[test]
fn empty_text_is_refused_without_a_request() {
    let mut embedder = DaemonMiniLmEmbedder::new("daemon");
    assert_eq!(embedder.embed_sync("").unwrap_err(), empty("empty text"));
    assert_eq!(embedder.next_request_id(), "daemon-embed-1");
}

#[test]
fn batch_with_an_empty_text_is_refused_without_a_request() {
    let mut embedder = DaemonMiniLmEmbedder::new("daemon");
    assert_eq!(
        embedder.embed_batch_sync(&["a", "", "c"]).unwrap_err(),
        empty("empty text in batch")
    );
    assert_eq!(embedder.next_request_id(), "daemon-embed-1");
}

#[test]
fn empty_batch_makes_no_request() {
    let mut embedder = DaemonMiniLmEmbedder::new("daemon");
    assert!(matches!(
        embedder.embed_batch_sync(&[]),
        Ok(BatchStep::Nothing)
    ));
    assert_eq!(embedder.next_request_id(), "daemon-embed-1");
}

#[test]
fn batch_goes_to_the_daemon_in_one_request() {
    let mut embedder = DaemonMiniLmEmbedder::new("daemon");
    let _ = embedder.next_request_id();
    match embedder.embed_batch_sync(&["a", "b"]).unwrap() {
        BatchStep::Call(call) => {
            assert_eq!(*call.daemon, "daemon");
            assert_eq!(call.texts, &["a", "b"]);
            assert_eq!(call.request_id, "daemon-embed-2");
        }
        BatchStep::Nothing => panic!("there are texts to embed"),
    }
    assert_eq!(embedder.next_request_id(), "daemon-embed-3");
}

#[test]
fn reply_of_the_daemon_is_the_answer() {
    let embedder = DaemonMiniLmEmbedder::new("daemon");
    assert_eq!(embedder.answer(Ok(vec![1.0f32, 2.0])), Ok(vec![1.0f32, 2.0]));
    let failed: Result<Vec<f32>, String> = Err("daemon timeout: 5s".to_string());
    assert_eq!(
        embedder.answer(failed),
        Err(EmbedderError::EmbeddingFailed {
            model: "minilm-384".to_string(),
            source: "daemon timeout: 5s".to_string(),
        })
    );
}

#[test]
fn embedder_describes_itself() {
    let embedder = DaemonMiniLmEmbedder::new("daemon");
    assert_eq!(embedder.dimension(), 384);
    assert_eq!(embedder.id(), "minilm-384");
    assert_eq!(embedder.model_name(), "all-minilm-l6-v2-daemon");
    assert!(embedder.is_semantic());
    assert_eq!(embedder.category(), ModelCategory::TransformerEmbedder);
    assert_eq!(embedder.tier(), ModelTier::Quality);
}
