use web_scraper::batch::{run_batch, settle_task, try_run_batch};
use web_scraper::metrics::Summary;
use web_scraper::outcome::{BatchError, Outcome};

fn rate_of(fraction: (usize, usize)) -> f64 {
    if fraction.1 == 0 {
        0.0
    } else {
        fraction.0 as f64 / fraction.1 as f64
    }
}

fn assert_same_summary(a: &Summary, b: &Summary) {
    assert_eq!(a.total_requests, b.total_requests);
    assert_eq!(a.successful_requests, b.successful_requests);
    assert_eq!(a.failed_requests, b.failed_requests);
    assert_eq!(a.total_data_size, b.total_data_size);
    assert_eq!(a.processing_time_ms, b.processing_time_ms);
}

#[test]
fn test_batch_three_items_scenario() {
    let task_results = vec![
        Some(Outcome::Success { byte_size: 100, elapsed_ms: 4 }),
        Some(Outcome::Failure {
            error: BatchError::FetchError { reason: String::from("timeout") },
        }),
        Some(Outcome::Success { byte_size: 200, elapsed_ms: 6 }),
    ];
    let summary = run_batch(&task_results, 0);
    assert_eq!(summary.total_requests, 3);
    assert_eq!(summary.successful_requests, 2);
    assert_eq!(summary.failed_requests, 1);
    assert_eq!(summary.total_data_size, 300);
    assert!((rate_of(summary.success_rate()) - 0.667).abs() < 0.001);
}

#[test]
fn test_batch_empty() {
    let task_results: Vec<Option<Outcome>> = Vec::new();
    let summary = run_batch(&task_results, 0);
    assert_eq!(summary.total_requests, 0);
    assert_eq!(summary.successful_requests, 0);
    assert_eq!(summary.failed_requests, 0);
    assert_eq!(summary.total_data_size, 0);
    assert_eq!(rate_of(summary.success_rate()), 0.0);
}

#[test]
fn test_batch_total_counts_every_item() {
    let task_results = vec![
        Some(Outcome::Success { byte_size: 1, elapsed_ms: 1 }),
        Some(Outcome::Failure {
            error: BatchError::TransformError { reason: String::from("bad payload") },
        }),
        None,
        Some(Outcome::Failure {
            error: BatchError::PersistError { reason: String::from("permission denied") },
        }),
        Some(Outcome::Success { byte_size: 2, elapsed_ms: 1 }),
    ];
    let summary = run_batch(&task_results, 0);
    assert_eq!(summary.total_requests, 5);
    assert_eq!(
        summary.successful_requests + summary.failed_requests,
        summary.total_requests
    );
}

#[test]
fn test_batch_crash_isolation() {
    // One task terminated without an outcome; the others must still be
    // counted, and the crashed one appears as exactly one failure.
    let task_results = vec![
        Some(Outcome::Success { byte_size: 50, elapsed_ms: 2 }),
        None,
        Some(Outcome::Success { byte_size: 70, elapsed_ms: 3 }),
    ];
    let summary = run_batch(&task_results, 0);
    assert_eq!(summary.total_requests, 3);
    assert_eq!(summary.successful_requests, 2);
    assert_eq!(summary.failed_requests, 1);
    assert_eq!(summary.total_data_size, 120);
}

#[test]
fn test_batch_reordering_gives_identical_summary() {
    let first = Outcome::Success { byte_size: 10, elapsed_ms: 1 };
    let second = Outcome::Failure {
        error: BatchError::FetchError { reason: String::from("connection refused") },
    };
    let third = Outcome::Success { byte_size: 30, elapsed_ms: 3 };

    let in_order = vec![
        Some(first.clone()),
        Some(second.clone()),
        Some(third.clone()),
    ];
    let reordered = vec![
        Some(third),
        Some(first),
        Some(second),
    ];
    assert_same_summary(&run_batch(&in_order, 9), &run_batch(&reordered, 9));
}

#[test]
fn test_settle_task_translates_crash() {
    let kept = settle_task(Some(Outcome::Success { byte_size: 8, elapsed_ms: 1 }));
    match kept {
        Outcome::Success { byte_size, elapsed_ms } => {
            assert_eq!(byte_size, 8);
            assert_eq!(elapsed_ms, 1);
        }
        Outcome::Failure { .. } => panic!("a reported outcome must pass through"),
    }

    let translated = settle_task(None);
    match translated {
        Outcome::Failure { error: BatchError::TaskFailure } => {}
        _ => panic!("a crashed task must settle as the synthetic failure"),
    }
    assert_eq!(BatchError::TaskFailure.message(), "task did not complete");
}

#[test]
fn test_try_run_batch_accepts_what_fits() {
    let task_results = vec![
        Some(Outcome::Success { byte_size: 5, elapsed_ms: 2 }),
        None,
    ];
    let summary = try_run_batch(&task_results, 1).expect("small batch must fit");
    assert_same_summary(&summary, &run_batch(&task_results, 1));
}

#[test]
fn test_try_run_batch_refuses_time_overflow() {
    let task_results = vec![Some(Outcome::Success { byte_size: 0, elapsed_ms: u64::MAX })];
    assert!(try_run_batch(&task_results, 1).is_none());
    assert!(try_run_batch(&task_results, 0).is_some());
}

#[test]
fn test_try_run_batch_refuses_size_overflow() {
    let task_results = vec![
        Some(Outcome::Success { byte_size: usize::MAX, elapsed_ms: 0 }),
        Some(Outcome::Success { byte_size: 1, elapsed_ms: 0 }),
    ];
    assert!(try_run_batch(&task_results, 0).is_none());
}

#[test]
fn test_batch_adds_own_elapsed_time() {
    let task_results = vec![Some(Outcome::Success { byte_size: 1, elapsed_ms: 10 })];
    let summary = run_batch(&task_results, 32);
    assert_eq!(summary.processing_time_ms, 42);
}
