use std::path::{Path, PathBuf};
use std::sync::Arc;

use frankensearch_index::{HnswConfig, HnswIndex, VectorIndex, HNSW_DEFAULT_EF_SEARCH};

use model_daemon::ann::{same_dimension, SemanticIndexPair};
use model_daemon::error::SemanticError;
use model_daemon::models::{LoadedEmbedder, ModelManager, WarmEvent};
use model_daemon::pair_cache::PairCache;
use model_daemon::path::AssetPath;
use model_daemon::ranking::{AnnHit, ParsedDocId, VectorSearchResult};
use model_daemon::score::Score;
use model_daemon::semantic::{
    candidate_count, search_beam, AnnSearchStats, AssetEvent, AssetStep, PairEvent, PairStep,
    SearchEvent, SearchStep, SemanticAssets,
};

type Manager = ModelManager<(), ()>;

fn manager() -> Manager {
    ModelManager::new(PathBuf::from("/srv/data"), "fnv1a-384".to_string(), ())
}

fn asset(path: &str) -> AssetPath {
    let normalised: PathBuf = Path::new(path).components().collect();
    AssetPath {
        key: normalised.into_os_string().into_encoded_bytes(),
        shown: path.to_string(),
    }
}

fn assets(embedder_id: &str) -> SemanticAssets {
    SemanticAssets {
        embedder_id: embedder_id.to_string(),
        vector_path: asset("/i/v"),
        ann_path: asset("/i/a"),
    }
}

/// Writes a vector index with one basis vector for each document id, and opens
/// it.
fn vectors(name: &str, dimension: usize, ids: &[&str]) -> VectorIndex {
    let path = PathBuf::from(format!("/tmp/model_daemon_{name}.fsvi"));
    let mut writer = VectorIndex::create(&path, "minilm-384", dimension).unwrap();
    for (row, id) in ids.iter().enumerate() {
        let mut vector = vec![0.0f32; dimension];
        vector[row % dimension] = 1.0;
        writer.write_record(id, &vector).unwrap();
    }
    writer.finish().unwrap();
    VectorIndex::open(&path).unwrap()
}

fn graph(index: &VectorIndex) -> HnswIndex {
    HnswIndex::build_from_vector_index(index, HnswConfig::default()).unwrap()
}

fn load(
    manager: &mut Manager,
    vector_path: &AssetPath,
    ann_path: &AssetPath,
    vectors: VectorIndex,
    ann: HnswIndex,
) -> Result<Arc<SemanticIndexPair>, SemanticError> {
    match manager.cached_semantic_pair(
        vector_path,
        ann_path,
        PairEvent::AnnLoaded(Arc::new(vectors), Ok(ann)),
    )? {
        PairStep::Ready(pair) => Ok(pair),
        other => panic!("a loaded graph is judged at once, not {other:?}"),
    }
}

fn stats() -> AnnSearchStats {
    AnnSearchStats {
        index_size: 3,
        dimension: 4,
        ef_search: 100,
        k_requested: 8,
        k_returned: 3,
        search_time_us: 17,
        estimated_recall: 1.0f32.to_bits(),
        is_approximate: true,
    }
}

#[test]
fn pair_is_opened_step_by_step() {
    let mut manager = manager();
    let (v, a) = (asset("/i/v.fsvi"), asset("/i/a.hnsw"));
    assert!(matches!(
        manager.cached_semantic_pair(&v, &a, PairEvent::Begin),
        Ok(PairStep::OpenVector)
    ));
    let index = vectors("steps", 4, &["a", "b", "c"]);
    let ann = graph(&index);
    let step = manager.cached_semantic_pair(&v, &a, PairEvent::VectorOpened(Ok(index)));
    let opened = match step {
        Ok(PairStep::CheckAnn(opened)) => opened,
        other => panic!("unexpected {other:?}"),
    };
    let step = manager.cached_semantic_pair(&v, &a, PairEvent::AnnChecked(opened, true));
    let opened = match step {
        Ok(PairStep::LoadAnn(opened)) => opened,
        other => panic!("unexpected {other:?}"),
    };
    assert_eq!(opened.record_count(), 3);
    let step = manager.cached_semantic_pair(&v, &a, PairEvent::AnnLoaded(opened, Ok(ann)));
    let pair = match step {
        Ok(PairStep::Ready(pair)) => pair,
        other => panic!("unexpected {other:?}"),
    };
    match manager.cached_semantic_pair(&v, &a, PairEvent::Begin) {
        Ok(PairStep::Ready(again)) => assert!(Arc::ptr_eq(&again, &pair)),
        other => panic!("unexpected {other:?}"),
    }
}

#[test]
fn cache_compares_paths_by_their_components() {
    let mut manager = manager();
    let index = vectors("components", 4, &["a"]);
    let ann = graph(&index);
    let pair = load(&mut manager, &asset("/i/v"), &asset("/i/a"), index, ann).unwrap();
    let (v, a) = (asset("/i//v"), asset("/i/./a/"));
    match manager.cached_semantic_pair(&v, &a, PairEvent::Begin) {
        Ok(PairStep::Ready(again)) => assert!(Arc::ptr_eq(&again, &pair)),
        other => panic!("unexpected {other:?}"),
    }
    assert!(matches!(
        manager.cached_semantic_pair(&asset("/i/v"), &asset("/i/b"), PairEvent::Begin),
        Ok(PairStep::OpenVector)
    ));
    assert!(matches!(
        manager.cached_semantic_pair(&asset("/i/w"), &asset("/i/a"), PairEvent::Begin),
        Ok(PairStep::OpenVector)
    ));
}

#[test]
fn opening_one_pair_keeps_another() {
    let mut manager = manager();
    let (v, a) = (asset("/i/v"), asset("/i/a"));
    let index = vectors("kept", 4, &["a"]);
    let ann = graph(&index);
    let pair = load(&mut manager, &v, &a, index, ann).unwrap();
    let other = vectors("beside", 4, &["b"]);
    let other_ann = graph(&other);
    let beside = load(&mut manager, &asset("/i/w"), &a, other, other_ann).unwrap();
    assert!(!Arc::ptr_eq(&beside, &pair));
    match manager.cached_semantic_pair(&v, &a, PairEvent::Begin) {
        Ok(PairStep::Ready(again)) => assert!(Arc::ptr_eq(&again, &pair)),
        other => panic!("unexpected {other:?}"),
    }
}

#[test]
fn cached_pair_stays() {
    let mut manager = manager();
    let (v, a) = (asset("/i/v"), asset("/i/a"));
    let first = vectors("staying", 4, &["a"]);
    let first_ann = graph(&first);
    let pair = load(&mut manager, &v, &a, first, first_ann).unwrap();
    let second = vectors("late", 4, &["a", "b"]);
    let second_ann = graph(&second);
    let again = load(&mut manager, &v, &a, second, second_ann).unwrap();
    assert!(Arc::ptr_eq(&again, &pair));
    let late = vectors("too_late", 4, &["c"]);
    let late_pair = SemanticIndexPair {
        ann_index: Arc::new(graph(&late)),
        vector_index: Arc::new(late),
    };
    match manager.admit_pair(&v, &a, late_pair, Ok(true)) {
        Ok(PairStep::Ready(again)) => assert!(Arc::ptr_eq(&again, &pair)),
        other => panic!("unexpected {other:?}"),
    }
    match manager.cached_semantic_pair(&v, &a, PairEvent::VectorOpened(Err("gone".to_string()))) {
        Ok(PairStep::Ready(again)) => assert!(Arc::ptr_eq(&again, &pair)),
        other => panic!("unexpected {other:?}"),
    }
}

#[test]
fn cache_holds_what_was_last_inserted() {
    let mut cache = PairCache::new();
    let (v, a) = (asset("/i/v"), asset("/i/a"));
    assert!(cache.get(&v, &a).is_none());
    let mut last = None;
    for name in ["inserted_first", "inserted_last"] {
        let index = vectors(name, 4, &["a"]);
        let pair = Arc::new(SemanticIndexPair {
            ann_index: Arc::new(graph(&index)),
            vector_index: Arc::new(index),
        });
        cache.insert(&v, &a, Arc::clone(&pair));
        last = Some(pair);
    }
    assert!(Arc::ptr_eq(&cache.get(&v, &a).unwrap(), &last.unwrap()));
    cache.clear();
    assert!(cache.get(&v, &a).is_none());
}

#[test]
fn dimensions_are_compared() {
    let four = vectors("four", 4, &["a"]);
    let eight = vectors("eight", 8, &["a"]);
    assert!(same_dimension(&graph(&four), &four));
    assert!(same_dimension(&graph(&eight), &eight));
    assert!(!same_dimension(&graph(&eight), &four));
    assert!(!same_dimension(&graph(&four), &eight));
}

#[test]
fn graph_over_other_rows_is_stale() {
    let mut manager = manager();
    let (v, a) = (asset("/i/v"), asset("/i/a"));
    let built_over = vectors("stale_old", 4, &["a", "b"]);
    let index = vectors("stale_new", 4, &["a", "c"]);
    let error = load(&mut manager, &v, &a, index, graph(&built_over)).unwrap_err();
    assert_eq!(
        error,
        SemanticError::StaleAnn {
            path: "/i/a".to_string()
        }
    );
    assert_eq!(
        error.message(),
        "HNSW index at /i/a is stale for current semantic index"
    );
    assert!(matches!(
        manager.cached_semantic_pair(&v, &a, PairEvent::Begin),
        Ok(PairStep::OpenVector)
    ));
}

#[test]
fn graph_of_another_dimension_is_stale() {
    let mut manager = manager();
    let built_over = vectors("dimension_old", 8, &["a"]);
    let index = vectors("dimension_new", 4, &["a"]);
    let error = load(
        &mut manager,
        &asset("/i/v"),
        &asset("/i/a"),
        index,
        graph(&built_over),
    )
    .unwrap_err();
    assert!(matches!(error, SemanticError::StaleAnn { .. }));
}

#[test]
fn graph_that_cannot_be_compared_is_refused() {
    let mut manager = manager();
    let (v, a) = (asset("/i/v"), asset("/i/a"));
    let index = vectors("uncompared", 4, &["a"]);
    let ann = graph(&index);
    let pair = SemanticIndexPair {
        vector_index: Arc::new(index),
        ann_index: Arc::new(ann),
    };
    let error = manager
        .admit_pair(&v, &a, pair, Err("bad row".to_string()))
        .unwrap_err();
    assert_eq!(error.message(), "validate HNSW index failed: bad row");
    assert!(matches!(
        manager.cached_semantic_pair(&v, &a, PairEvent::Begin),
        Ok(PairStep::OpenVector)
    ));
}

#[test]
fn failures_on_the_way_are_told_apart() {
    let mut manager = manager();
    let (v, a) = (asset("/i/v"), asset("/i/a"));
    let error = manager
        .cached_semantic_pair(&v, &a, PairEvent::VectorOpened(Err("gone".to_string())))
        .unwrap_err();
    assert_eq!(
        error,
        SemanticError::OpenVectorIndex {
            path: "/i/v".to_string(),
            cause: "gone".to_string(),
        }
    );
    assert_eq!(error.message(), "open semantic vector index failed: /i/v");
    let index = Arc::new(vectors("failures", 4, &["a"]));
    let error = manager
        .cached_semantic_pair(&v, &a, PairEvent::AnnChecked(Arc::clone(&index), false))
        .unwrap_err();
    assert_eq!(error.message(), "HNSW index not found at /i/a");
    let error = manager
        .cached_semantic_pair(
            &v,
            &a,
            PairEvent::AnnLoaded(index, Err("bad header".to_string())),
        )
        .unwrap_err();
    assert_eq!(error.message(), "open HNSW index failed: bad header");
}

#[test]
fn assets_are_those_of_the_current_embedder() {
    let mut manager = manager();
    let data_dir = PathBuf::from("/srv/data");
    assert_eq!(
        manager.semantic_assets_of(),
        (&data_dir, "hash-384".to_string())
    );
    let failed: Result<LoadedEmbedder<()>, String> = Err("no model".to_string());
    let _ = manager.warm_embedder(WarmEvent::Tried(failed));
    assert_eq!(
        manager.semantic_assets_of(),
        (&data_dir, "fnv1a-384".to_string())
    );
}

#[test]
fn assets_are_located_for_the_current_embedder() {
    let mut manager = manager();
    match manager.warm_semantic_assets(AssetEvent::Begin) {
        Ok(AssetStep::Locate {
            data_dir,
            embedder_id,
        }) => {
            assert_eq!(data_dir, &PathBuf::from("/srv/data"));
            assert_eq!(embedder_id, "hash-384");
        }
        other => panic!("unexpected {other:?}"),
    }
    let stale = assets("minilm-384");
    let located = AssetEvent::Located {
        assets: &stale,
        vector_is_file: true,
        ann_is_file: false,
    };
    match manager.warm_semantic_assets(located) {
        Ok(AssetStep::Locate { embedder_id, .. }) => assert_eq!(embedder_id, "hash-384"),
        other => panic!("unexpected {other:?}"),
    }
    let begun = AssetEvent::Pair {
        assets: &stale,
        event: PairEvent::Begin,
    };
    match manager.warm_semantic_assets(begun) {
        Ok(AssetStep::Locate { embedder_id, .. }) => assert_eq!(embedder_id, "hash-384"),
        other => panic!("unexpected {other:?}"),
    }
}

#[test]
fn missing_assets_name_embedder_and_paths() {
    let mut manager = manager();
    let loaded = LoadedEmbedder {
        id: "minilm-384".to_string(),
        dimension: 384,
        model: (),
    };
    let _ = manager.warm_embedder::<String>(WarmEvent::Tried(Ok(loaded)));
    let assets = assets("minilm-384");
    for (vector_is_file, ann_is_file) in [(false, false), (false, true), (true, false)] {
        let error = manager
            .warm_semantic_assets(AssetEvent::Located {
                assets: &assets,
                vector_is_file,
                ann_is_file,
            })
            .unwrap_err();
        assert_eq!(
            error.message(),
            "semantic assets missing for minilm-384 (expected /i/v, /i/a)"
        );
    }
}

#[test]
fn warm_assets_are_searched_at_once() {
    let mut manager = manager();
    let (v, a) = (asset("/i/v"), asset("/i/a"));
    let assets = assets("hash-384");
    let located = AssetEvent::Located {
        assets: &assets,
        vector_is_file: true,
        ann_is_file: true,
    };
    assert!(matches!(
        manager.warm_semantic_assets(located),
        Ok(AssetStep::Pair(PairStep::OpenVector))
    ));
    let index = vectors("warm", 4, &["a", "b"]);
    let ann = graph(&index);
    assert!(matches!(
        manager.warm_semantic_assets(AssetEvent::Pair {
            assets: &assets,
            event: PairEvent::AnnLoaded(Arc::new(index), Ok(ann)),
        }),
        Ok(AssetStep::Done)
    ));
    let step = manager.semantic_search_approx(
        &v,
        &a,
        30,
        true,
        SearchEvent::Pair(PairEvent::Begin),
    );
    match step {
        Ok(SearchStep::Search {
            pair,
            candidates,
            ef,
        }) => {
            assert_eq!(candidates, 120);
            assert_eq!(ef, 120);
            let (hits, _) = pair
                .ann_index
                .knn_search_with_stats(&[1.0, 0.0, 0.0, 0.0], candidates, ef)
                .unwrap();
            assert_eq!(hits.len(), 2);
        }
        other => panic!("unexpected {other:?}"),
    }
    manager.unload_all();
    assert!(matches!(
        manager.semantic_search_approx(&v, &a, 30, true, SearchEvent::Pair(PairEvent::Begin)),
        Ok(SearchStep::Pair(PairStep::OpenVector))
    ));
}

#[test]
fn search_is_wide_enough() {
    assert_eq!(HNSW_DEFAULT_EF_SEARCH, 100);
    assert_eq!(candidate_count(0), 0);
    assert_eq!(candidate_count(10), 40);
    assert_eq!(candidate_count(usize::MAX), usize::MAX);
    assert_eq!(candidate_count(usize::MAX / 4), usize::MAX / 4 * 4);
    assert_eq!(search_beam(0), 100);
    assert_eq!(search_beam(100), 100);
    assert_eq!(search_beam(101), 101);
}

#[test]
fn found_hits_are_ranked_and_figures_passed_on() {
    let mut manager = manager();
    let (v, a) = (asset("/i/v"), asset("/i/a"));
    let hit = |message_id: u64, chunk_idx: u64, score: f32| AnnHit {
        matches: true,
        parsed: Some(ParsedDocId {
            message_id,
            chunk_idx,
        }),
        score: Score {
            bits: score.to_bits(),
        },
    };
    let hits = vec![hit(1, 0, 0.2), hit(2, 0, 0.4), hit(1, 3, 0.7)];
    let step = manager.semantic_search_approx(
        &v,
        &a,
        1,
        false,
        SearchEvent::Searched(Ok((hits, stats()))),
    );
    match step {
        Ok(SearchStep::Done(results, figures)) => {
            let best = VectorSearchResult {
                message_id: 1,
                chunk_idx: 3,
                score: Score {
                    bits: 0.7f32.to_bits(),
                },
            };
            assert_eq!(results, vec![best]);
            assert_eq!(figures, stats());
        }
        other => panic!("unexpected {other:?}"),
    }
}

#[test]
fn failed_search_is_reported() {
    let mut manager = manager();
    let error = manager
        .semantic_search_approx(
            &asset("/i/v"),
            &asset("/i/a"),
            5,
            true,
            SearchEvent::Searched(Err("dimension mismatch".to_string())),
        )
        .unwrap_err();
    assert_eq!(
        error.message(),
        "frankensearch approximate search failed: dimension mismatch"
    );
}
