//! Ingestion options, statistics and names.

use hindsight::ingest::{split_test_name, IngestOptions, IngestStats};

#[test]
fn test_split_test_name_with_module() {
    let (suite, test) = split_test_name("hindsight_git::parser::tests::test_open");
    assert_eq!(suite, "hindsight_git");
    assert_eq!(test, "parser::tests::test_open");
}

#[test]
fn test_split_test_name_no_module() {
    let (suite, test) = split_test_name("test_simple");
    assert_eq!(suite, "");
    assert_eq!(test, "test_simple");
}

#[test]
fn test_ingest_options_full() {
    let opts = IngestOptions::full();
    assert!(opts.commit_limit.is_none());
    assert!(opts.include_diffs);
    assert!(!opts.incremental);
}

#[test]
fn test_ingest_options_incremental() {
    let opts = IngestOptions::incremental();
    assert!(opts.commit_limit.is_none());
    assert!(opts.include_diffs);
    assert!(opts.incremental);
}

#[test]
fn test_ingest_options_builder_pattern() {
    let options = IngestOptions::full().with_limit(50);

    assert_eq!(options.commit_limit, Some(50));
    assert!(options.include_diffs);
    // full() sets incremental to false
    assert!(!options.incremental);
}

#[test]
fn test_ingest_options_default() {
    let opts = IngestOptions::default();
    assert!(opts.commit_limit.is_none());
    assert!(!opts.include_diffs);
    assert!(!opts.incremental);
}

#[test]
fn test_ingest_options_with_limit() {
    let opts = IngestOptions::default().with_limit(50);
    assert_eq!(opts.commit_limit, Some(50));
}

#[test]
fn test_ingest_stats_merge() {
    let mut stats1 = IngestStats {
        commits_inserted: 10,
        commits_skipped: 5,
        ..Default::default()
    };
    let stats2 = IngestStats {
        commits_inserted: 3,
        sessions_inserted: 2,
        messages_inserted: 20,
        ..Default::default()
    };

    stats1.merge(&stats2);

    assert_eq!(stats1.commits_inserted, 13);
    assert_eq!(stats1.commits_skipped, 5);
    assert_eq!(stats1.sessions_inserted, 2);
    assert_eq!(stats1.messages_inserted, 20);
}

#[test]
fn test_ingest_stats_total_items() {
    let stats = IngestStats {
        commits_inserted: 10,
        test_runs_inserted: 1,
        test_results_inserted: 50,
        sessions_inserted: 3,
        messages_inserted: 30,
        ..Default::default()
    };

    assert_eq!(stats.total_items(), 94);
}
