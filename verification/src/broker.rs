//! What the broker computes from its workers' reports.

use crate::worker::{WorkerError, WorkerStats};
use vstd::prelude::*;

verus! {

/// The totals of a set of workers.
#[derive(Clone, Copy, Debug, PartialEq, Eq, Structural)]
pub struct Totals {
    /// The number of workers.
    pub workers: usize,
    /// The trials that have ended, over all workers.
    pub executions: u64,
    /// The entries of the input corpora, over all workers.
    pub corpus: u64,
    /// The trials that ended in a crash, over all workers.
    pub crashes: u64,
    /// The trials that ended in a timeout, over all workers.
    pub timeouts: u64,
}

/// The sum of the workers' numbers of ended trials.
pub open spec fn sum_executions(stats: Seq<WorkerStats>) -> nat
    decreases stats.len(),
{
    if stats.len() == 0 {
        0
    } else {
        sum_executions(stats.drop_last()) + stats.last().executions as nat
    }
}

/// The sum of the workers' corpus counts.
pub open spec fn sum_corpus(stats: Seq<WorkerStats>) -> nat
    decreases stats.len(),
{
    if stats.len() == 0 {
        0
    } else {
        sum_corpus(stats.drop_last()) + stats.last().corpus as nat
    }
}

/// The sum of the workers' numbers of crashes.
pub open spec fn sum_crashes(stats: Seq<WorkerStats>) -> nat
    decreases stats.len(),
{
    if stats.len() == 0 {
        0
    } else {
        sum_crashes(stats.drop_last()) + stats.last().crashes as nat
    }
}

/// The sum of the workers' numbers of timeouts.
pub open spec fn sum_timeouts(stats: Seq<WorkerStats>) -> nat
    decreases stats.len(),
{
    if stats.len() == 0 {
        0
    } else {
        sum_timeouts(stats.drop_last()) + stats.last().timeouts as nat
    }
}

/// Whether each of the four sums fits in 64 bits.
pub open spec fn sums_fit(stats: Seq<WorkerStats>) -> bool {
    &&& sum_executions(stats) <= u64::MAX
    &&& sum_corpus(stats) <= u64::MAX
    &&& sum_crashes(stats) <= u64::MAX
    &&& sum_timeouts(stats) <= u64::MAX
}

/// The sums only grow with more workers.
proof fn lemma_sums_grow(stats: Seq<WorkerStats>, k: int)
    requires
        0 <= k <= stats.len(),
    ensures
        sum_executions(stats.take(k)) <= sum_executions(stats),
        sum_corpus(stats.take(k)) <= sum_corpus(stats),
        sum_crashes(stats.take(k)) <= sum_crashes(stats),
        sum_timeouts(stats.take(k)) <= sum_timeouts(stats),
    decreases stats.len(),
{
    if k == stats.len() {
        assert(stats.take(k) == stats);
    } else {
        lemma_sums_grow(stats.drop_last(), k);
        assert(stats.drop_last().take(k) == stats.take(k));
    }
}

/// Adds up the reports of the workers. Each total is the plain sum of the
/// workers' own numbers: the corpora of two workers are never merged, so an
/// input that two workers found counts twice. `None` where a sum is past
/// 64 bits.
pub fn aggregate(stats: &Vec<WorkerStats>) -> (r: Option<Totals>)
    ensures
        match r {
            Some(totals) => {
                &&& totals.workers == stats@.len()
                &&& totals.executions == sum_executions(stats@)
                &&& totals.corpus == sum_corpus(stats@)
                &&& totals.crashes == sum_crashes(stats@)
                &&& totals.timeouts == sum_timeouts(stats@)
            },
            None => !sums_fit(stats@),
        },
{
    let mut totals = Totals { workers: 0, executions: 0, corpus: 0, crashes: 0, timeouts: 0 };
    let mut i: usize = 0;
    while i < stats.len()
        invariant
            i <= stats.len(),
            totals.workers == i,
            totals.executions == sum_executions(stats@.take(i as int)),
            totals.corpus == sum_corpus(stats@.take(i as int)),
            totals.crashes == sum_crashes(stats@.take(i as int)),
            totals.timeouts == sum_timeouts(stats@.take(i as int)),
        decreases stats.len() - i,
    {
        let one: WorkerStats = stats[i];
        proof {
            let upto = stats@.take(i + 1);
            assert(upto.drop_last() == stats@.take(i as int));
            assert(upto.last() == one);
            lemma_sums_grow(stats@, i + 1);
        }
        let executions = totals.executions.checked_add(one.executions);
        let corpus = totals.corpus.checked_add(one.corpus as u64);
        let crashes = totals.crashes.checked_add(one.crashes);
        let timeouts = totals.timeouts.checked_add(one.timeouts);
        match (executions, corpus, crashes, timeouts) {
            (Some(executions), Some(corpus), Some(crashes), Some(timeouts)) => {
                totals = Totals { workers: i + 1, executions, corpus, crashes, timeouts };
            },
            _ => {
                return None;
            },
        }
        i += 1;
    }
    assert(stats@.take(stats@.len() as int) == stats@);
    Some(totals)
}

/// The corpus count that is reported for two workers is the sum of their
/// own counts, whatever the two have found.
pub proof fn lemma_two_workers(a: WorkerStats, b: WorkerStats)
    ensures
        sum_corpus(seq![a, b]) == a.corpus + b.corpus,
        sum_executions(seq![a, b]) == a.executions + b.executions,
        sum_crashes(seq![a, b]) == a.crashes + b.crashes,
        sum_timeouts(seq![a, b]) == a.timeouts + b.timeouts,
{
    let both = seq![a, b];
    let first = both.drop_last();
    assert(first =~= seq![a]);
    assert(first.drop_last() =~= Seq::<WorkerStats>::empty());
    assert(both.last() == b);
    assert(first.last() == a);
    reveal_with_fuel(sum_corpus, 3);
    reveal_with_fuel(sum_executions, 3);
    reveal_with_fuel(sum_crashes, 3);
    reveal_with_fuel(sum_timeouts, 3);
}

/// The number of trials in a second, rounded down, that `executions` trials
/// in `millis` milliseconds come to; 0 where no time has passed.
pub open spec fn spec_rate(executions: u64, millis: u64) -> int {
    if millis == 0 {
        0
    } else {
        executions * 1000 / millis as int
    }
}

/// The number of trials in a second, rounded down; `u64::MAX` where it is
/// more than that.
pub fn executions_per_second(executions: u64, millis: u64) -> (rate: u64)
    ensures
        rate == if spec_rate(executions, millis) > u64::MAX {
            u64::MAX as int
        } else {
            spec_rate(executions, millis)
        },
{
    if millis == 0 {
        return 0;
    }
    let scaled: u128 = (executions as u128) * 1000;
    let rate: u128 = scaled / (millis as u128);
    if rate > u64::MAX as u128 {
        u64::MAX
    } else {
        rate as u64
    }
}

/// The limits of a whole launch.
#[derive(Clone, Copy, Debug, PartialEq, Eq, Structural)]
pub struct Budget {
    /// The number of trials, over all workers, after which the launch ends.
    pub trials: Option<u64>,
    /// The time in milliseconds after which the launch ends.
    pub millis: Option<u64>,
}

/// Whether the workers are to be shut down: a stop was asked for, or the
/// workers together have reached the limit of trials, or the limit of time
/// has passed.
pub open spec fn spec_should_stop(
    stop_requested: bool,
    budget: Budget,
    totals: Totals,
    elapsed_millis: u64,
) -> bool {
    ||| stop_requested
    ||| budget.trials matches Some(limit) && totals.executions >= limit
    ||| budget.millis matches Some(limit) && elapsed_millis >= limit
}

/// Whether the workers are to be shut down.
pub fn should_stop(stop_requested: bool, budget: Budget, totals: &Totals, elapsed_millis: u64) -> (stop:
    bool)
    ensures
        stop == spec_should_stop(stop_requested, budget, *totals, elapsed_millis),
{
    let trials_spent: bool = match budget.trials {
        Some(limit) => totals.executions >= limit,
        None => false,
    };
    let time_spent: bool = match budget.millis {
        Some(limit) => elapsed_millis >= limit,
        None => false,
    };
    stop_requested || trials_spent || time_spent
}

/// What the broker does with a worker that has failed.
#[derive(Clone, Copy, Debug, PartialEq, Eq, Structural)]
pub enum RespawnPolicy {
    /// A failed worker stays down. This is the default.
    Never,
    /// A worker whose target went away is started again, up to the given
    /// number of times.
    UpTo(u32),
}

impl RespawnPolicy {
    /// The policy of a broker that was told nothing: a failed worker stays
    /// down.
    pub fn standard() -> (policy: RespawnPolicy)
        ensures
            policy == RespawnPolicy::Never,
    {
        RespawnPolicy::Never
    }
}

/// Whether a failed worker is started again: only where its target went
/// away, the policy allows it, and it has not been started again as often as
/// the policy allows. A protocol violation is never retried, nor is a
/// failure of the engine.
pub open spec fn spec_should_respawn(
    policy: RespawnPolicy,
    failure: WorkerError,
    respawns: u32,
) -> bool {
    failure == WorkerError::ChannelDisconnected && match policy {
        RespawnPolicy::Never => false,
        RespawnPolicy::UpTo(limit) => respawns < limit,
    }
}

/// Whether a failed worker is started again.
pub fn should_respawn(policy: RespawnPolicy, failure: WorkerError, respawns: u32) -> (again: bool)
    ensures
        again == spec_should_respawn(policy, failure, respawns),
{
    match failure {
        WorkerError::ChannelDisconnected => match policy {
            RespawnPolicy::Never => false,
            RespawnPolicy::UpTo(limit) => respawns < limit,
        },
        _ => false,
    }
}

} // verus!
