use disyn::memory::{InMemoryStore, MAX_EPISODES};
use disyn::types::{ExecutionReport, Facts, ResourceUsage, StepResult};

fn stdout_json(text: &str) -> String {
    let mut map = serde_json::Map::new();
    map.insert("stdout".to_string(), serde_json::Value::String(text.to_string()));
    serde_json::Value::Object(map).to_string()
}

fn make_report(outputs: &[&str]) -> ExecutionReport {
    ExecutionReport {
        results: outputs
            .iter()
            .enumerate()
            .map(|(i, o)| StepResult {
                idempotency_key: i as u128 + 1,
                step_index: i,
                success: true,
                output: stdout_json(o),
                error: None,
            })
            .collect(),
        total_cost: ResourceUsage {
            total_tokens: 0,
            symbolic_tokens: 0,
            neural_tokens: 0,
            wall_time_ms: 0,
        },
    }
}

fn facts(entities: &[&str]) -> Facts {
    Facts { entities: entities.iter().map(|e| e.to_string()).collect(), relations: vec![] }
}

#[test]
fn retrieve_returns_empty_context_initially() {
    let store = InMemoryStore::new();
    let facts = Facts {
        entities: vec!["test".into()],
        relations: vec![],
    };
    let ctx = store.retrieve(&facts);
    assert!(ctx.relevant_episodes.is_empty());
    assert!(ctx.summary.is_none());
}

#[test]
fn retrieve_scores_matching_episodes() {
    let mut store = InMemoryStore::new();
    store.persist(&make_report(&["processed alice checkout"]));
    store.persist(&make_report(&["unrelated output"]));

    let facts = Facts {
        entities: vec!["alice".into(), "checkout".into()],
        relations: vec![],
    };
    let ctx = store.retrieve(&facts);
    assert!(ctx.summary.is_some());
    assert_eq!(ctx.weighted_passages.len(), 1);
    let p = &ctx.weighted_passages[0];
    let score = p.matched_entities as f32 / p.query_entities as f32;
    assert!((score - 1.0).abs() < f32::EPSILON);
}

#[test]
fn evicts_oldest_when_capacity_exceeded() {
    let mut store = InMemoryStore::new();
    for i in 0..=MAX_EPISODES {
        store.persist(&make_report(&[&format!("step {i}")]));
    }
    assert_eq!(store.len(), MAX_EPISODES);
}

#[test]
fn eviction_drops_the_oldest_episode() {
    let mut store = InMemoryStore::new();
    store.persist(&make_report(&["first-marker"]));
    for i in 1..=MAX_EPISODES {
        store.persist(&make_report(&[&format!("filler {i}")]));
    }
    let ctx = store.retrieve(&facts(&["first-marker"]));
    assert!(ctx.weighted_passages.is_empty());
    let ctx = store.retrieve(&facts(&["filler 256"]));
    assert_eq!(ctx.weighted_passages.len(), 1);
    assert_eq!(ctx.weighted_passages[0].source_episode_index, MAX_EPISODES - 1);
}

#[test]
fn matching_ignores_case() {
    let mut store = InMemoryStore::new();
    store.persist(&make_report(&["Processed ALICE"]));
    let ctx = store.retrieve(&facts(&["alice", "Bob"]));
    assert_eq!(ctx.weighted_passages.len(), 1);
    assert_eq!(ctx.weighted_passages[0].matched_entities, 1);
    assert_eq!(ctx.weighted_passages[0].query_entities, 2);
}

#[test]
fn passages_rank_by_matches_then_age_and_keep_five() {
    let mut store = InMemoryStore::new();
    store.persist(&make_report(&["a"]));
    store.persist(&make_report(&["a b c"]));
    store.persist(&make_report(&["nothing"]));
    store.persist(&make_report(&["b", "c"]));
    store.persist(&make_report(&["a"]));
    store.persist(&make_report(&["c"]));
    store.persist(&make_report(&["a b"]));
    let ctx = store.retrieve(&facts(&["a", "b", "c"]));
    let order: Vec<usize> = ctx.weighted_passages.iter().map(|p| p.source_episode_index).collect();
    assert_eq!(order, vec![1, 3, 6, 0, 4]);
    let counts: Vec<usize> = ctx.weighted_passages.iter().map(|p| p.matched_entities).collect();
    assert_eq!(counts, vec![3, 2, 2, 1, 1]);
    assert_eq!(
        ctx.summary.as_deref(),
        Some("Retrieved 5 relevant episode(s) matching entities: a, b, c")
    );
}

#[test]
fn passage_content_joins_outputs_with_spaces() {
    let mut store = InMemoryStore::new();
    store.persist(&make_report(&["x", "y"]));
    let ctx = store.retrieve(&facts(&["y"]));
    assert_eq!(ctx.weighted_passages.len(), 1);
    assert_eq!(ctx.weighted_passages[0].content, r#"{"stdout":"x"} {"stdout":"y"}"#);
}

#[test]
fn no_entities_match_nothing() {
    let mut store = InMemoryStore::new();
    store.persist(&make_report(&["anything"]));
    let ctx = store.retrieve(&facts(&[]));
    assert!(ctx.weighted_passages.is_empty());
    assert!(ctx.summary.is_none());
}
