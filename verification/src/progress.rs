//! The controller's progress reporter: what to do at each poll of the
//! completion counter.

use crate::stats::throughput;
use crate::stats::throughput_centi;
use vstd::prelude::*;

verus! {

/// Time between two progress reports, in nanoseconds.
pub const REPORT_INTERVAL_NANOS: u128 = 5000000000u128;

/// Time the controller waits between two polls, in milliseconds.
pub const POLL_INTERVAL_MILLIS: u64 = 200u64;

/// One progress line.
#[derive(Clone, Copy, Debug, PartialEq, Eq, Structural)]
pub struct ProgressReport {
    /// Requests completed so far.
    pub completed: usize,
    /// Requests of the whole run.
    pub total: usize,
    /// Requests completed since the last report.
    pub delta: usize,
    /// Nanoseconds since the last report.
    pub elapsed_nanos: u128,
    /// Requests per second since the last report, in hundredths.
    pub rate_centi: u128,
    /// Share of the run that is complete, in hundredths of a percent.
    pub percent_centi: u128,
}

/// What the controller does after a poll.
#[derive(Clone, Copy, Debug, PartialEq, Eq, Structural)]
pub enum ProgressAction {
    /// Every request has ended: stop polling and aggregate.
    Finish,
    /// Print this report, then wait for the next poll.
    Report(ProgressReport),
    /// Wait for the next poll.
    Wait,
}

/// State of the reporter between two polls. Times are nanoseconds on the
/// controller's monotonic clock.
#[derive(Clone, Copy, Debug, PartialEq, Eq, Structural)]
pub struct ProgressReporter {
    /// Requests of the whole run.
    pub total: usize,
    /// Value of the completion counter at the last report.
    pub last_count: usize,
    /// Time of the last report.
    pub last_report_nanos: u128,
}

/// `a - b`, or zero where `b` is the larger.
pub open spec fn minus_or_zero(a: nat, b: nat) -> nat {
    if a >= b {
        (a - b) as nat
    } else {
        0
    }
}

/// Share `completed / total` in hundredths of a percent, rounded down.
pub open spec fn percent_centi(completed: nat, total: nat) -> nat
    recommends
        total > 0,
{
    (completed * 10000) / total
}

/// The progress line for a poll that reads `completed` at time `now`.
pub open spec fn report_at(state: ProgressReporter, completed: usize, now: u128) -> ProgressReport {
    let delta = minus_or_zero(completed as nat, state.last_count as nat);
    let elapsed = minus_or_zero(now as nat, state.last_report_nanos as nat);
    ProgressReport {
        completed,
        total: state.total,
        delta: delta as usize,
        elapsed_nanos: elapsed as u128,
        rate_centi: throughput_centi(delta, elapsed) as u128,
        percent_centi: percent_centi(completed as nat, state.total as nat) as u128,
    }
}

/// The action for a poll: finish once the counter has reached the total;
/// else report if a report interval has passed since the last report; else
/// wait.
pub open spec fn action_at(state: ProgressReporter, completed: usize, now: u128) -> ProgressAction {
    if completed >= state.total {
        ProgressAction::Finish
    } else if minus_or_zero(now as nat, state.last_report_nanos as nat) >= REPORT_INTERVAL_NANOS {
        ProgressAction::Report(report_at(state, completed, now))
    } else {
        ProgressAction::Wait
    }
}

/// The reporter's state after a poll: a report moves the last count and the
/// last report time to the poll's; any other action leaves the state alone.
pub open spec fn state_after(state: ProgressReporter, completed: usize, now: u128)
    -> ProgressReporter {
    match action_at(state, completed, now) {
        ProgressAction::Report(_) => ProgressReporter {
            total: state.total,
            last_count: completed,
            last_report_nanos: now,
        },
        _ => state,
    }
}

impl ProgressReporter {
    /// A reporter for a run of `total` requests that starts at time `now`.
    pub fn new(total: usize, now: u128) -> (reporter: ProgressReporter)
        ensures
            reporter == (ProgressReporter { total, last_count: 0, last_report_nanos: now }),
    {
        ProgressReporter { total, last_count: 0, last_report_nanos: now }
    }

    /// Decides what the controller does after reading `completed` from the
    /// completion counter at time `now`. The poll only observes: it changes
    /// nothing but the reporter's own record of its last report.
    pub fn poll(&mut self, completed: usize, now: u128) -> (action: ProgressAction)
        ensures
            action == action_at(*old(self), completed, now),
            *final(self) == state_after(*old(self), completed, now),
    {
        if completed >= self.total {
            return ProgressAction::Finish;
        }
        let elapsed: u128 = if now >= self.last_report_nanos {
            now - self.last_report_nanos
        } else {
            0
        };
        if elapsed < REPORT_INTERVAL_NANOS {
            return ProgressAction::Wait;
        }
        let delta: usize = if completed >= self.last_count {
            completed - self.last_count
        } else {
            0
        };
        assert(completed as u128 * 10000 <= u128::MAX) by (nonlinear_arith)
            requires
                completed <= 0xffff_ffff_ffff_ffff,
        ;
        let report = ProgressReport {
            completed,
            total: self.total,
            delta,
            elapsed_nanos: elapsed,
            rate_centi: throughput(delta, elapsed),
            percent_centi: (completed as u128 * 10000) / (self.total as u128),
        };
        self.last_count = completed;
        self.last_report_nanos = now;
        ProgressAction::Report(report)
    }
}

/// The reporter finishes exactly when the completion counter has reached
/// the total, whatever the time.
pub proof fn lemma_finish_iff_complete(state: ProgressReporter, completed: usize, now: u128)
    ensures
        action_at(state, completed, now) == ProgressAction::Finish <==> completed >= state.total,
{
}

/// A report never shows more than the whole run: its share stays below one
/// hundred percent.
pub proof fn lemma_report_below_full(state: ProgressReporter, completed: usize, now: u128)
    requires
        action_at(state, completed, now) is Report,
    ensures
        percent_centi(completed as nat, state.total as nat) < 10000,
{
    let c = completed as nat;
    let t = state.total as nat;
    assert((c * 10000) / t < 10000) by (nonlinear_arith)
        requires
            c < t,
    ;
}

} // verus!
