use replay_core::registry::{JobCategory, TaskRegistry};

#[test]
fn start_installs_a_live_job() {
    let mut registry = TaskRegistry::new();
    let outcome = registry.start(JobCategory::Ingestion);
    assert_eq!(outcome.started, 0);
    assert_eq!(outcome.superseded, None);
    assert!(registry.is_live(JobCategory::Ingestion, outcome.started));
    assert!(!registry.is_live(JobCategory::Flush, outcome.started));
    assert!(!registry.is_live(JobCategory::Monitor, outcome.started));
}

#[test]
fn start_twice_leaves_exactly_one_live_job() {
    let mut registry = TaskRegistry::new();
    let first = registry.start(JobCategory::Ingestion);
    let second = registry.start(JobCategory::Ingestion);
    // The second start supersedes the first job and installs its own.
    assert_eq!(second.superseded, Some(first.started));
    assert!(registry.is_live(JobCategory::Ingestion, second.started));
    // The superseded job is live nowhere, so its next tick emits nothing.
    assert!(!registry.is_live(JobCategory::Ingestion, first.started));
    assert!(!registry.is_live(JobCategory::Flush, first.started));
    assert!(!registry.is_live(JobCategory::Monitor, first.started));
}

#[test]
fn categories_are_independent() {
    let mut registry = TaskRegistry::new();
    let ingestion = registry.start(JobCategory::Ingestion);
    let flush = registry.start(JobCategory::Flush);
    let monitor = registry.start(JobCategory::Monitor);
    assert_eq!(flush.superseded, None);
    assert_eq!(monitor.superseded, None);
    let replaced_flush = registry.start(JobCategory::Flush);
    assert_eq!(replaced_flush.superseded, Some(flush.started));
    assert!(registry.is_live(JobCategory::Ingestion, ingestion.started));
    assert!(registry.is_live(JobCategory::Monitor, monitor.started));
    assert!(!registry.is_live(JobCategory::Flush, flush.started));
}

#[test]
fn reset_all_aborts_every_live_job() {
    let mut registry = TaskRegistry::new();
    let ingestion = registry.start(JobCategory::Ingestion);
    let flush = registry.start(JobCategory::Flush);
    let monitor = registry.start(JobCategory::Monitor);
    let aborted = registry.reset_all();
    assert_eq!(aborted, vec![ingestion.started, flush.started, monitor.started]);
    assert!(!registry.is_live(JobCategory::Ingestion, ingestion.started));
    assert!(!registry.is_live(JobCategory::Flush, flush.started));
    assert!(!registry.is_live(JobCategory::Monitor, monitor.started));
}

#[test]
fn reset_all_on_empty_registry_aborts_nothing() {
    let mut registry = TaskRegistry::new();
    let aborted = registry.reset_all();
    assert!(aborted.is_empty());
}
