//! The batch's configuration: which items to run and under what limits.

use vstd::prelude::*;
use crate::WorkItem;

verus! {

/// Configuration of one batch run, immutable for its duration.
#[derive(Debug)]
pub struct Config {
    /// The identifiers of the work items to submit.
    pub urls: Vec<String>,
    /// Where the host persists the processed artifacts.
    pub output: String,
    /// The admission limit: at most this many workers run at once.
    pub max_concurrent: usize,
    /// Per-item ceiling, in seconds, on a runner's stages; a run past it is
    /// settled as a failure whose reason reflects the timeout.
    pub timeout: u64,
    /// Whether the host should log verbosely.
    pub verbose: bool,
}

impl Config {
    /// A usable configuration admits at least one worker.
    pub open spec fn wf(&self) -> bool {
        self.max_concurrent >= 1
    }

    pub fn new(
        urls: Vec<String>,
        output: String,
        max_concurrent: usize,
        timeout: u64,
        verbose: bool,
    ) -> (c: Self)
        ensures
            c.urls == urls,
            c.output == output,
            c.max_concurrent == max_concurrent,
            c.timeout == timeout,
            c.verbose == verbose,
    {
        Config { urls, output, max_concurrent, timeout, verbose }
    }

    /// Whether the configuration can drive a batch at all.
    pub fn valid(&self) -> (b: bool)
        ensures
            b == self.wf(),
    {
        self.max_concurrent >= 1
    }

    /// The work items this configuration submits: one per URL, in order.
    pub fn work_items(&self) -> (items: Vec<WorkItem>)
        ensures
            items@.len() == self.urls@.len(),
            forall|i: int| 0 <= i < items@.len() ==> items@[i].url == self.urls@[i],
    {
        let mut items: Vec<WorkItem> = Vec::new();
        let n = self.urls.len();
        let mut i: usize = 0;
        while i < n
            invariant
                0 <= i <= n,
                n == self.urls@.len(),
                items@.len() == i,
                forall|k: int| 0 <= k < i ==> items@[k].url == self.urls@[k],
            decreases n - i,
        {
            items.push(WorkItem::new(self.urls[i].clone()));
            i = i + 1;
        }
        items
    }
}

impl Clone for Config {
    /// A clone agrees with the original on every field.
    fn clone(&self) -> (c: Self)
        ensures
            c.urls@ == self.urls@,
            c.output == self.output,
            c.max_concurrent == self.max_concurrent,
            c.timeout == self.timeout,
            c.verbose == self.verbose,
    {
        let urls = self.urls.clone();
        proof {
            assert forall|i: int| 0 <= i < self.urls@.len() implies urls@[i] == self.urls@[i] by {
                assert(cloned::<String>(self.urls[i], urls[i]));
            }
            assert(urls@ =~= self.urls@);
        }
        Config {
            urls,
            output: self.output.clone(),
            max_concurrent: self.max_concurrent,
            timeout: self.timeout,
            verbose: self.verbose,
        }
    }
}

} // verus!
