use web_scraper::outcome::{BatchError, Outcome};
use web_scraper::runner::{RunnerAction, RunnerState};

#[test]
fn test_runner_success_path() {
    let run = RunnerState::start();
    assert!(matches!(run.next_action(), RunnerAction::RunFetch));

    let run = run.on_fetch(Ok(()));
    assert!(matches!(run.next_action(), RunnerAction::RunTransform));

    let run = run.on_transform(Ok(42));
    assert!(matches!(run.next_action(), RunnerAction::RunPersist));

    let run = run.on_persist(Ok(()), 7);
    assert!(matches!(run.next_action(), RunnerAction::Finished));

    match run.into_outcome() {
        Outcome::Success { byte_size, elapsed_ms } => {
            assert_eq!(byte_size, 42);
            assert_eq!(elapsed_ms, 7);
        }
        Outcome::Failure { .. } => panic!("all three stages completed"),
    }
}

#[test]
fn test_runner_fetch_failure_short_circuits() {
    let run = RunnerState::start().on_fetch(Err(String::from("connection refused")));
    assert!(matches!(run.next_action(), RunnerAction::Finished));
    match run.into_outcome() {
        Outcome::Failure { error: BatchError::FetchError { reason } } => {
            assert_eq!(reason, "connection refused");
        }
        _ => panic!("a failed fetch must settle the run with a fetch error"),
    }
}

#[test]
fn test_runner_transform_failure() {
    let run = RunnerState::start()
        .on_fetch(Ok(()))
        .on_transform(Err(String::from("unparseable markup")));
    assert!(matches!(run.next_action(), RunnerAction::Finished));
    match run.into_outcome() {
        Outcome::Failure { error: BatchError::TransformError { reason } } => {
            assert_eq!(reason, "unparseable markup");
        }
        _ => panic!("a failed transform must settle the run with a transform error"),
    }
}

#[test]
fn test_runner_persist_failure() {
    let run = RunnerState::start()
        .on_fetch(Ok(()))
        .on_transform(Ok(9))
        .on_persist(Err(String::from("disk full")), 3);
    match run.into_outcome() {
        Outcome::Failure { error: BatchError::PersistError { reason } } => {
            assert_eq!(reason, "disk full");
        }
        _ => panic!("a failed persist must settle the run with a persist error"),
    }
}

#[test]
fn test_runner_timeout_settles_as_stage_failure() {
    // A stage exceeding the configured ceiling is handed back as that stage's
    // failure; the run settles like any other failure, with a reason that
    // reflects the timeout.
    let run = RunnerState::start().on_fetch(Err(String::from("timed out after 30s")));
    match run.into_outcome() {
        Outcome::Failure { error } => {
            assert_eq!(error.message(), "timed out after 30s");
        }
        Outcome::Success { .. } => panic!("a timed-out run is not a success"),
    }
}
