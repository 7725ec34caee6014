//! Per-item results: the error taxonomy of the three pipeline stages and the
//! outcome recorded for each work item.

use vstd::prelude::*;

verus! {

/// Why one work item failed: one variant per pipeline stage, plus the marker
/// for a worker task that ended without reporting any outcome at all.
#[derive(Clone, Debug)]
pub enum BatchError {
    /// The fetch stage failed (network, timeout, non-success status).
    FetchError { reason: String },
    /// The transform stage failed (malformed or unparseable payload).
    TransformError { reason: String },
    /// The persist stage failed (I/O error while storing the artifact).
    PersistError { reason: String },
    /// The worker task itself terminated abnormally, producing no outcome.
    TaskFailure,
}

impl BatchError {
    /// A human-readable description of the failure.
    pub fn message(&self) -> (m: String)
        ensures
            m@ == self.spec_message(),
    {
        match self {
            BatchError::FetchError { reason } => reason.clone(),
            BatchError::TransformError { reason } => reason.clone(),
            BatchError::PersistError { reason } => reason.clone(),
            BatchError::TaskFailure => "task did not complete".to_owned(),
        }
    }

    pub open spec fn spec_message(&self) -> Seq<char> {
        match self {
            BatchError::FetchError { reason } => reason@,
            BatchError::TransformError { reason } => reason@,
            BatchError::PersistError { reason } => reason@,
            BatchError::TaskFailure => "task did not complete"@,
        }
    }
}

/// The settled result of one work item: exactly one of these is produced per
/// submitted item, and none is ever dropped.
#[derive(Clone, Debug)]
pub enum Outcome {
    /// All three stages completed. `byte_size` is the size of the persisted
    /// (post-transform) artifact; `elapsed_ms` is the wall-clock time the
    /// item's own stages took, excluding time spent waiting for admission.
    Success { byte_size: usize, elapsed_ms: u64 },
    /// The first stage that failed, short-circuiting the rest.
    Failure { error: BatchError },
}

impl Outcome {
    pub open spec fn is_success(&self) -> bool {
        self is Success
    }

    /// The bytes this outcome contributes to the batch's data total:
    /// a success contributes its artifact size, a failure nothing.
    pub open spec fn spec_size(&self) -> int {
        match self {
            Outcome::Success { byte_size, .. } => *byte_size as int,
            Outcome::Failure { .. } => 0,
        }
    }

    /// The time this outcome contributes to the batch's processing total.
    pub open spec fn spec_elapsed(&self) -> int {
        match self {
            Outcome::Success { elapsed_ms, .. } => *elapsed_ms as int,
            Outcome::Failure { .. } => 0,
        }
    }
}

} // verus!
