//! Run statistics of the transactions a leader processed.

use vstd::prelude::*;

use actix::clock::Instant;

verus! {

#[verifier::external_type_specification]
#[verifier::external_body]
pub struct ExInstant(Instant);

/// The largest span a `std::time::Duration` holds, in nanoseconds.
pub open spec fn duration_max_nanos() -> int {
    18_446_744_073_709_551_615int * 1_000_000_000 + 999_999_999
}

/// The current instant, from `actix::clock::Instant::now` (tokio's clock).
/// Nothing is claimed of it.
#[verifier::external_body]
fn now() -> (r: Instant) {
    Instant::now()
}

/// The time elapsed since `since`, in nanoseconds, from `Instant::elapsed`
/// read with `Duration::as_nanos`. Claimed: it fits a `Duration`, which holds
/// at most `u64::MAX` seconds and fewer than a billion nanoseconds besides.
#[verifier::external_body]
fn elapsed_nanos(since: &Instant) -> (r: u128)
    ensures
        r <= duration_max_nanos(),
{
    since.elapsed().as_nanos()
}

/// What the statistics record.
pub struct StatsView {
    pub runs: Seq<u128>,
    pub total_runs: u32,
    pub correct_runs: u32,
    pub failed_runs: u32,
}

/// Durations (in nanoseconds) and outcomes of the transactions run so far,
/// and the start of the one in progress.
pub struct Stats {
    runs: Vec<u128>,
    now: Instant,
    total_runs: u32,
    correct_runs: u32,
    failed_runs: u32,
}

impl View for Stats {
    type V = StatsView;

    closed spec fn view(&self) -> StatsView {
        StatsView {
            runs: self.runs@,
            total_runs: self.total_runs,
            correct_runs: self.correct_runs,
            failed_runs: self.failed_runs,
        }
    }
}

/// Every run has a duration and exactly one outcome.
pub open spec fn stats_wf(s: StatsView) -> bool {
    &&& s.runs.len() == s.total_runs
    &&& s.correct_runs + s.failed_runs == s.total_runs
}

/// The sum of a list of spans.
pub open spec fn sum(runs: Seq<u128>) -> int
    decreases runs.len(),
{
    if runs.len() == 0 {
        0
    } else {
        sum(runs.drop_last()) + runs.last()
    }
}

/// The summary printed when the statistics stop.
pub struct StatsReport {
    pub total_runs: u32,
    pub total_millis: u128,
    pub correct_runs: u32,
    pub failed_runs: u32,
    pub average_millis: u128,
}

impl Stats {
    /// The instant the transaction in progress started at.
    pub closed spec fn start_instant(&self) -> Instant {
        self.now
    }

    /// No runs yet; the transaction clock starts at `at`.
    pub fn starting_at(at: Instant) -> (s: Stats)
        ensures
            s@.runs == Seq::<u128>::empty(),
            s@.total_runs == 0,
            s@.correct_runs == 0,
            s@.failed_runs == 0,
            s.start_instant() == at,
    {
        Stats { runs: Vec::new(), now: at, total_runs: 0, correct_runs: 0, failed_runs: 0 }
    }

    /// No runs yet; the transaction clock starts at the current instant,
    /// read from the clock (which instant that is depends on the time of the
    /// call and is not stated).
    pub fn new() -> (s: Stats)
        ensures
            s@.runs == Seq::<u128>::empty(),
            s@.total_runs == 0,
            s@.correct_runs == 0,
            s@.failed_runs == 0,
    {
        let at = now();
        Stats::starting_at(at)
    }

    /// The transaction clock restarts at `at`; runs and counts are unchanged.
    pub fn restart(&mut self, at: Instant)
        ensures
            final(self)@ == old(self)@,
            final(self).start_instant() == at,
    {
        self.now = at;
    }

    /// A transaction starts: the clock restarts at the current instant (read
    /// from the clock; which instant that is depends on the time of the call
    /// and is not stated). Runs and counts are unchanged.
    pub fn start_transaction(&mut self)
        ensures
            final(self)@ == old(self)@,
    {
        let at = now();
        self.restart(at);
    }

    /// A transaction that took `d` nanoseconds ended, successfully when
    /// `st`: `d` is recorded as its run and it counts as correct or failed.
    pub fn record(&mut self, d: u128, st: bool)
        requires
            stats_wf(old(self)@),
            old(self)@.total_runs < u32::MAX,
        ensures
            stats_wf(final(self)@),
            final(self)@.runs == old(self)@.runs.push(d),
            final(self)@.total_runs == old(self)@.total_runs + 1,
            final(self)@.correct_runs == old(self)@.correct_runs + (if st { 1int } else { 0 }),
            final(self)@.failed_runs == old(self)@.failed_runs + (if st { 0int } else { 1 }),
            final(self).start_instant() == old(self).start_instant(),
    {
        self.runs.push(d);
        self.total_runs = self.total_runs + 1;
        if st {
            self.correct_runs = self.correct_runs + 1;
        } else {
            self.failed_runs = self.failed_runs + 1;
        }
    }

    /// The transaction in progress ended, successfully when `st`: the time
    /// elapsed since its start instant, read from the clock, is recorded as
    /// its run (`record`), and it counts as correct or failed. Which duration
    /// the clock gives is not stated, only that it fits a `Duration`.
    pub fn end_transaction(&mut self, st: bool)
        requires
            stats_wf(old(self)@),
            old(self)@.total_runs < u32::MAX,
        ensures
            stats_wf(final(self)@),
            final(self)@.runs.len() == old(self)@.runs.len() + 1,
            final(self)@.runs.drop_last() == old(self)@.runs,
            final(self)@.runs.last() <= duration_max_nanos(),
            final(self)@.total_runs == old(self)@.total_runs + 1,
            final(self)@.correct_runs == old(self)@.correct_runs + (if st { 1int } else { 0 }),
            final(self)@.failed_runs == old(self)@.failed_runs + (if st { 0int } else { 1 }),
            final(self).start_instant() == old(self).start_instant(),
    {
        let d = elapsed_nanos(&self.now);
        self.record(d, st);
        assert(self.runs@.drop_last() =~= old(self).runs@);
    }

    /// The summary: number of runs, total time, correct and failed runs, and
    /// the mean time per run, as `Duration / u32` gives it (the total divided
    /// by the number of runs, rounded down to the nanosecond); milliseconds are
    /// whole, rounded down.
    pub fn stop(&self) -> (r: StatsReport)
        requires
            stats_wf(self@),
            self@.total_runs > 0,
            sum(self@.runs) <= duration_max_nanos(),
        ensures
            r.total_runs == self@.total_runs,
            r.correct_runs == self@.correct_runs,
            r.failed_runs == self@.failed_runs,
            r.total_millis == sum(self@.runs) / 1_000_000,
            r.average_millis == sum(self@.runs) / (self@.total_runs as int) / 1_000_000,
    {
        let mut total: u128 = 0;
        let mut i: usize = 0;
        while i < self.runs.len()
            invariant
                i <= self.runs.len(),
                total == sum(self.runs@.take(i as int)),
                sum(self.runs@) <= duration_max_nanos(),
            decreases self.runs.len() - i,
        {
            assert(self.runs@.take(i + 1).drop_last() =~= self.runs@.take(i as int));
            proof {
                lemma_sum_prefix_bounded(self.runs@, i + 1);
            }
            total = total + self.runs[i];
            i = i + 1;
        }
        assert(self.runs@.take(self.runs.len() as int) =~= self.runs@);
        let n = self.total_runs as u128;
        let avg = total / n;
        StatsReport {
            total_runs: self.total_runs,
            total_millis: total / 1_000_000,
            correct_runs: self.correct_runs,
            failed_runs: self.failed_runs,
            average_millis: avg / 1_000_000,
        }
    }
}

/// A prefix of a list of spans sums to no more than the whole list.
pub proof fn lemma_sum_prefix_bounded(runs: Seq<u128>, k: int)
    requires
        0 <= k <= runs.len(),
    ensures
        0 <= sum(runs.take(k)) <= sum(runs),
    decreases runs.len(),
{
    if k == runs.len() {
        assert(runs.take(k) =~= runs);
        lemma_sum_nonnegative(runs);
    } else {
        assert(runs.drop_last().take(k) =~= runs.take(k));
        lemma_sum_prefix_bounded(runs.drop_last(), k);
    }
}

/// Sums of spans are never negative.
pub proof fn lemma_sum_nonnegative(runs: Seq<u128>)
    ensures
        sum(runs) >= 0,
    decreases runs.len(),
{
    if runs.len() > 0 {
        lemma_sum_nonnegative(runs.drop_last());
    }
}

/// Each ended transaction is counted once, as correct or as failed: the
/// counts always add up to the number of recorded runs.
pub proof fn law_counts_add_up(s: StatsView, st: bool, d: u128)
    requires
        stats_wf(s),
        s.total_runs < u32::MAX,
    ensures
        stats_wf(StatsView {
            runs: s.runs.push(d),
            total_runs: (s.total_runs + 1) as u32,
            correct_runs: if st { (s.correct_runs + 1) as u32 } else { s.correct_runs },
            failed_runs: if st { s.failed_runs } else { (s.failed_runs + 1) as u32 },
        }),
{
}

} // verus!
