//! The batch orchestrator's aggregation core.
//!
//! The host spawns one worker task per work item, gated by the limiter, and
//! joins them all; each task settles either with the runner's outcome or, if
//! the task terminated abnormally, with no outcome at all. `run_batch` takes
//! those per-task settlements, translates a missing outcome into a synthetic
//! failure so it is never lost, folds every outcome into the metrics exactly
//! once, and freezes the result into the batch's one summary.

use vstd::prelude::*;
use vstd::seq_lib::group_to_multiset_ensures;
use crate::metrics::{AppMetrics, Summary};
use crate::outcome::{BatchError, Outcome};

verus! {

/// How many of the outcomes are successes.
pub open spec fn count_successes(s: Seq<Outcome>) -> int
    decreases s.len(),
{
    if s.len() == 0 {
        0
    } else {
        count_successes(s.drop_last()) + if s.last().is_success() {
            1int
        } else {
            0
        }
    }
}

/// How many of the outcomes are failures.
pub open spec fn count_failures(s: Seq<Outcome>) -> int
    decreases s.len(),
{
    if s.len() == 0 {
        0
    } else {
        count_failures(s.drop_last()) + if s.last().is_success() {
            0int
        } else {
            1
        }
    }
}

/// The total bytes over the successful outcomes alone.
pub open spec fn sum_success_sizes(s: Seq<Outcome>) -> int
    decreases s.len(),
{
    if s.len() == 0 {
        0
    } else {
        sum_success_sizes(s.drop_last()) + s.last().spec_size()
    }
}

/// The total elapsed time the outcomes report.
pub open spec fn sum_elapsed(s: Seq<Outcome>) -> int
    decreases s.len(),
{
    if s.len() == 0 {
        0
    } else {
        sum_elapsed(s.drop_last()) + s.last().spec_elapsed()
    }
}

/// The outcome a task settles with: its own outcome if it produced one, a
/// synthetic failure if it terminated without any.
pub open spec fn spec_settle(result: Option<Outcome>) -> Outcome {
    match result {
        Some(outcome) => outcome,
        None => Outcome::Failure { error: BatchError::TaskFailure },
    }
}

/// Every task's settlement, in task order.
pub open spec fn settled_outcomes(task_results: Seq<Option<Outcome>>) -> Seq<Outcome> {
    task_results.map_values(|result: Option<Outcome>| spec_settle(result))
}

/// Translate one task's terminal state into the outcome that is recorded: a
/// task that ended without reporting anything is counted as exactly one
/// failure rather than being dropped or aborting the batch.
pub fn settle_task(result: Option<Outcome>) -> (o: Outcome)
    ensures
        o == spec_settle(result),
{
    match result {
        Some(outcome) => outcome,
        None => Outcome::Failure { error: BatchError::TaskFailure },
    }
}

/// Law: successes and failures split a batch — every outcome is counted
/// exactly once, so `successful + failed == total` for every batch size.
pub proof fn lemma_counts_split_total(s: Seq<Outcome>)
    ensures
        count_successes(s) + count_failures(s) == s.len(),
    decreases s.len(),
{
    if s.len() > 0 {
        lemma_counts_split_total(s.drop_last());
    }
}

/// All four aggregates are bounded below: counts by zero (and above by the
/// length), sums by zero.
pub proof fn lemma_aggregates_nonneg(s: Seq<Outcome>)
    ensures
        0 <= count_successes(s) <= s.len(),
        0 <= count_failures(s) <= s.len(),
        0 <= sum_success_sizes(s),
        0 <= sum_elapsed(s),
    decreases s.len(),
{
    if s.len() > 0 {
        lemma_aggregates_nonneg(s.drop_last());
    }
}

/// Removing one outcome takes exactly its own contribution out of each
/// aggregate.
proof fn lemma_aggregates_remove(s: Seq<Outcome>, i: int)
    requires
        0 <= i < s.len(),
    ensures
        count_successes(s) == count_successes(s.remove(i)) + (if s[i].is_success() {
            1int
        } else {
            0
        }),
        count_failures(s) == count_failures(s.remove(i)) + (if s[i].is_success() {
            0int
        } else {
            1
        }),
        sum_success_sizes(s) == sum_success_sizes(s.remove(i)) + s[i].spec_size(),
        sum_elapsed(s) == sum_elapsed(s.remove(i)) + s[i].spec_elapsed(),
    decreases s.len(),
{
    if i == s.len() - 1 {
        assert(s.remove(i) =~= s.drop_last());
    } else {
        lemma_aggregates_remove(s.drop_last(), i);
        assert(s.remove(i).drop_last() =~= s.drop_last().remove(i));
        assert(s.remove(i).last() == s.last());
    }
}

/// Law: the summary is independent of the order in which outcomes were
/// recorded — two batches whose outcomes are permutations of each other (the
/// same multiset) agree on every aggregate, because the aggregates are
/// commutative sums.
pub proof fn lemma_aggregates_permutation(a: Seq<Outcome>, b: Seq<Outcome>)
    requires
        a.to_multiset() == b.to_multiset(),
    ensures
        a.len() == b.len(),
        count_successes(a) == count_successes(b),
        count_failures(a) == count_failures(b),
        sum_success_sizes(a) == sum_success_sizes(b),
        sum_elapsed(a) == sum_elapsed(b),
    decreases a.len(),
{
    broadcast use group_to_multiset_ensures;

    if a.len() == 0 {
        assert(a.to_multiset().len() == a.len());
        assert(b.to_multiset().len() == b.len());
        assert(b.len() == 0);
    } else {
        let x = a.last();
        assert(a.contains(x));
        assert(a.to_multiset().count(x) > 0);
        assert(b.to_multiset().count(x) > 0);
        assert(b.contains(x));
        let j = choose|j: int| 0 <= j < b.len() && b[j] == x;
        let a1 = a.drop_last();
        let b1 = b.remove(j);
        assert(a.remove(a.len() - 1) =~= a1);
        assert(a1.to_multiset() == a.to_multiset().remove(x));
        assert(b1.to_multiset() == b.to_multiset().remove(x));
        lemma_aggregates_remove(b, j);
        lemma_aggregates_permutation(a1, b1);
    }
}

/// Law: crash isolation — a task that ended without an outcome shows up as
/// exactly one synthetic failure in the settled batch, and every other task's
/// own outcome is passed through untouched; no task is dropped.
pub proof fn lemma_crash_isolation(task_results: Seq<Option<Outcome>>, i: int)
    requires
        0 <= i < task_results.len(),
    ensures
        settled_outcomes(task_results).len() == task_results.len(),
        task_results[i] is None ==> settled_outcomes(task_results)[i] == (Outcome::Failure {
            error: BatchError::TaskFailure,
        }),
        task_results[i] matches Some(outcome) ==> settled_outcomes(task_results)[i] == outcome,
{
}

/// A prefix of the settled batch never exceeds the whole batch's aggregates.
proof fn lemma_aggregates_prefix_le(s: Seq<Outcome>, i: int)
    requires
        0 <= i <= s.len(),
    ensures
        count_successes(s.subrange(0, i)) <= count_successes(s),
        count_failures(s.subrange(0, i)) <= count_failures(s),
        sum_success_sizes(s.subrange(0, i)) <= sum_success_sizes(s),
        sum_elapsed(s.subrange(0, i)) <= sum_elapsed(s),
    decreases s.len() - i,
{
    if i == s.len() {
        assert(s.subrange(0, i) =~= s);
    } else {
        lemma_aggregates_prefix_le(s, i + 1);
        assert(s.subrange(0, i + 1).drop_last() =~= s.subrange(0, i));
        assert(s.subrange(0, i + 1).last() == s[i]);
    }
}

/// Drive a joined batch to its one summary: settle every task's result
/// (translating a crashed task into one synthetic failure), record each
/// outcome exactly once, add the batch's own elapsed wall-clock time, and
/// freeze the metrics. The summary's counts are exactly the aggregates of
/// the settled outcomes: the total equals the number of submitted items
/// however many succeeded, failed or crashed; successes and failures split
/// it; the data total sums the successful byte sizes alone.
pub fn run_batch(task_results: &Vec<Option<Outcome>>, batch_elapsed_ms: u64) -> (s: Summary)
    requires
        sum_success_sizes(settled_outcomes(task_results@)) <= usize::MAX,
        sum_elapsed(settled_outcomes(task_results@)) + batch_elapsed_ms <= u64::MAX,
    ensures
        s.wf(),
        s.total_requests == task_results@.len(),
        s.successful_requests == count_successes(settled_outcomes(task_results@)),
        s.failed_requests == count_failures(settled_outcomes(task_results@)),
        s.total_data_size == sum_success_sizes(settled_outcomes(task_results@)),
        s.processing_time_ms == sum_elapsed(settled_outcomes(task_results@)) + batch_elapsed_ms,
{
    let ghost settled = settled_outcomes(task_results@);
    let n = task_results.len();
    let mut metrics = AppMetrics::new();
    let mut i: usize = 0;
    while i < n
        invariant
            0 <= i <= n,
            n == task_results@.len(),
            settled == settled_outcomes(task_results@),
            settled.len() == n,
            sum_success_sizes(settled) <= usize::MAX,
            sum_elapsed(settled) + batch_elapsed_ms <= u64::MAX,
            metrics.wf(),
            metrics.total_requests == i,
            metrics.successful_requests == count_successes(settled.subrange(0, i as int)),
            metrics.failed_requests == count_failures(settled.subrange(0, i as int)),
            metrics.total_data_size == sum_success_sizes(settled.subrange(0, i as int)),
            metrics.processing_time_ms == sum_elapsed(settled.subrange(0, i as int)),
        decreases n - i,
    {
        proof {
            lemma_aggregates_prefix_le(settled, i + 1);
            lemma_aggregates_nonneg(settled.subrange(0, i as int));
            assert(settled.subrange(0, i + 1).drop_last() =~= settled.subrange(0, i as int));
            assert(settled.subrange(0, i + 1).last() == settled[i as int]);
            assert(settled[i as int] == spec_settle(task_results@[i as int]));
        }
        match &task_results[i] {
            Some(outcome) => {
                metrics.record(outcome);
            },
            None => {
                let translated = Outcome::Failure { error: BatchError::TaskFailure };
                metrics.record(&translated);
            },
        }
        i = i + 1;
    }
    proof {
        assert(settled.subrange(0, n as int) =~= settled);
    }
    metrics.record_processing_time(batch_elapsed_ms);
    metrics.snapshot()
}

/// Like `run_batch`, but checks the machine limits itself: the batch is run
/// exactly when its data total fits the byte counter and its time total fits
/// the duration counter, and is refused with `None` otherwise.
pub fn try_run_batch(task_results: &Vec<Option<Outcome>>, batch_elapsed_ms: u64) -> (r: Option<
    Summary,
>)
    ensures
        r is Some <==> (sum_success_sizes(settled_outcomes(task_results@)) <= usize::MAX
            && sum_elapsed(settled_outcomes(task_results@)) + batch_elapsed_ms <= u64::MAX),
        r matches Some(s) ==> {
            &&& s.wf()
            &&& s.total_requests == task_results@.len()
            &&& s.successful_requests == count_successes(settled_outcomes(task_results@))
            &&& s.failed_requests == count_failures(settled_outcomes(task_results@))
            &&& s.total_data_size == sum_success_sizes(settled_outcomes(task_results@))
            &&& s.processing_time_ms == sum_elapsed(settled_outcomes(task_results@))
                + batch_elapsed_ms
        },
{
    let ghost settled = settled_outcomes(task_results@);
    let n = task_results.len();
    let mut size_sum: usize = 0;
    let mut elapsed_sum: u64 = batch_elapsed_ms;
    let mut i: usize = 0;
    while i < n
        invariant
            0 <= i <= n,
            n == task_results@.len(),
            settled == settled_outcomes(task_results@),
            settled.len() == n,
            size_sum == sum_success_sizes(settled.subrange(0, i as int)),
            elapsed_sum == sum_elapsed(settled.subrange(0, i as int)) + batch_elapsed_ms,
        decreases n - i,
    {
        proof {
            lemma_aggregates_prefix_le(settled, i + 1);
            assert(settled.subrange(0, i + 1).drop_last() =~= settled.subrange(0, i as int));
            assert(settled.subrange(0, i + 1).last() == settled[i as int]);
            assert(settled[i as int] == spec_settle(task_results@[i as int]));
        }
        let step: (usize, u64) = match &task_results[i] {
            Some(Outcome::Success { byte_size, elapsed_ms }) => (*byte_size, *elapsed_ms),
            _ => (0, 0),
        };
        size_sum = match size_sum.checked_add(step.0) {
            Some(v) => v,
            None => {
                return None;
            },
        };
        elapsed_sum = match elapsed_sum.checked_add(step.1) {
            Some(v) => v,
            None => {
                return None;
            },
        };
        i = i + 1;
    }
    proof {
        assert(settled.subrange(0, n as int) =~= settled);
    }
    Some(run_batch(task_results, batch_elapsed_ms))
}

} // verus!
