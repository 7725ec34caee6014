//! A bounded-concurrency batch orchestrator: fans a batch of work items out
//! across a capped number of concurrent workers, collects one outcome per
//! item, and folds the outcomes into deterministic summary statistics.

use vstd::prelude::*;

pub mod batch;
pub mod config;
pub mod language;
pub mod limiter;
pub mod metrics;
pub mod outcome;
pub mod runner;

verus! {

/// A work item's identifier, as submitted to a batch.
pub struct WorkItem {
    pub url: String,
}

impl WorkItem {
    pub fn new(url: String) -> (w: Self)
        ensures
            w.url == url,
    {
        WorkItem { url }
    }
}

} // verus!
