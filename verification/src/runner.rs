//! The unit-of-work runner: the decision core of the fetch → transform →
//! persist pipeline for one work item.
//!
//! The stages themselves are I/O and belong to the host; this state machine
//! fixes their order and the short-circuiting. The host asks `next_action`
//! what to run, runs that stage, and hands the stage's result back through
//! the matching `on_*` step. The machine guarantees that transform is only
//! reached after a successful fetch, persist only after a successful
//! transform, and that the first failing stage settles the run with a
//! `Failure` carrying that stage's error — a stage that times out is handed
//! back as that stage's failure, with a reason that says so, and settles the
//! run the same way.

use vstd::prelude::*;
use crate::outcome::{BatchError, Outcome};

verus! {

/// What the host should run next for this work item.
pub enum RunnerAction {
    RunFetch,
    RunTransform,
    RunPersist,
    Finished,
}

/// Where one work item's run stands.
pub enum RunnerState {
    /// The fetch stage has not completed yet.
    AwaitingFetch,
    /// Fetch succeeded; the transform stage has not completed yet.
    AwaitingTransform,
    /// Transform succeeded, producing an artifact of `byte_size` bytes;
    /// the persist stage has not completed yet.
    AwaitingPersist { byte_size: usize },
    /// The run settled; exactly one outcome was produced.
    Settled { outcome: Outcome },
}

/// The state after the fetch stage reported `result`.
pub open spec fn spec_after_fetch(result: Result<(), String>) -> RunnerState {
    match result {
        Ok(_) => RunnerState::AwaitingTransform,
        Err(reason) => RunnerState::Settled {
            outcome: Outcome::Failure { error: BatchError::FetchError { reason } },
        },
    }
}

/// The state after the transform stage reported `result` (`Ok` carries the
/// size of the processed artifact).
pub open spec fn spec_after_transform(result: Result<usize, String>) -> RunnerState {
    match result {
        Ok(byte_size) => RunnerState::AwaitingPersist { byte_size },
        Err(reason) => RunnerState::Settled {
            outcome: Outcome::Failure { error: BatchError::TransformError { reason } },
        },
    }
}

/// The state after the persist stage reported `result`, for a run whose
/// artifact had `byte_size` bytes and whose stages took `elapsed_ms` so far.
pub open spec fn spec_after_persist(
    byte_size: usize,
    result: Result<(), String>,
    elapsed_ms: u64,
) -> RunnerState {
    match result {
        Ok(_) => RunnerState::Settled { outcome: Outcome::Success { byte_size, elapsed_ms } },
        Err(reason) => RunnerState::Settled {
            outcome: Outcome::Failure { error: BatchError::PersistError { reason } },
        },
    }
}

impl RunnerState {
    /// A fresh run: nothing has happened yet, the fetch stage is next.
    pub fn start() -> (s: Self)
        ensures
            s == RunnerState::AwaitingFetch,
    {
        RunnerState::AwaitingFetch
    }

    /// Which stage the host should run next: the stages come in strict
    /// order, and a settled run has nothing left to do.
    pub fn next_action(&self) -> (a: RunnerAction)
        ensures
            a == (match self {
                RunnerState::AwaitingFetch => RunnerAction::RunFetch,
                RunnerState::AwaitingTransform => RunnerAction::RunTransform,
                RunnerState::AwaitingPersist { .. } => RunnerAction::RunPersist,
                RunnerState::Settled { .. } => RunnerAction::Finished,
            }),
    {
        match self {
            RunnerState::AwaitingFetch => RunnerAction::RunFetch,
            RunnerState::AwaitingTransform => RunnerAction::RunTransform,
            RunnerState::AwaitingPersist { .. } => RunnerAction::RunPersist,
            RunnerState::Settled { .. } => RunnerAction::Finished,
        }
    }

    /// Step on the fetch stage's result: success advances to transform, a
    /// failure settles the run with a fetch error and skips the later stages.
    pub fn on_fetch(self, result: Result<(), String>) -> (next: Self)
        requires
            self is AwaitingFetch,
        ensures
            next == spec_after_fetch(result),
    {
        match result {
            Ok(_) => RunnerState::AwaitingTransform,
            Err(reason) => RunnerState::Settled {
                outcome: Outcome::Failure { error: BatchError::FetchError { reason } },
            },
        }
    }

    /// Step on the transform stage's result: success records the artifact's
    /// size and advances to persist, a failure settles the run with a
    /// transform error.
    pub fn on_transform(self, result: Result<usize, String>) -> (next: Self)
        requires
            self is AwaitingTransform,
        ensures
            next == spec_after_transform(result),
    {
        match result {
            Ok(byte_size) => RunnerState::AwaitingPersist { byte_size },
            Err(reason) => RunnerState::Settled {
                outcome: Outcome::Failure { error: BatchError::TransformError { reason } },
            },
        }
    }

    /// Step on the persist stage's result: success settles the run with a
    /// `Success` carrying the persisted artifact's size and the run's own
    /// elapsed time (admission wait excluded), a failure settles it with a
    /// persist error.
    pub fn on_persist(self, result: Result<(), String>, elapsed_ms: u64) -> (next: Self)
        requires
            self is AwaitingPersist,
        ensures
            next == spec_after_persist(self->AwaitingPersist_byte_size, result, elapsed_ms),
    {
        match self {
            RunnerState::AwaitingPersist { byte_size } => {
                match result {
                    Ok(_) => RunnerState::Settled {
                        outcome: Outcome::Success { byte_size, elapsed_ms },
                    },
                    Err(reason) => RunnerState::Settled {
                        outcome: Outcome::Failure { error: BatchError::PersistError { reason } },
                    },
                }
            },
            _ => unreached(),
        }
    }

    /// Take the settled run's outcome.
    pub fn into_outcome(self) -> (o: Outcome)
        requires
            self is Settled,
        ensures
            self == (RunnerState::Settled { outcome: o }),
    {
        match self {
            RunnerState::Settled { outcome } => outcome,
            _ => unreached(),
        }
    }
}

} // verus!
