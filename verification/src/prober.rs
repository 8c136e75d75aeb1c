//! Readiness probing: poll a network endpoint until it accepts or a budget
//! elapses.
//!
//! The driver owns the actual connection attempt and the sleep; this module
//! owns the schedule.  Model time is measured in milliseconds from the first
//! attempt: attempt `k` happens at `k * backoff_ms`, and the driver sleeps
//! `backoff_ms` between attempts.  [`Prober::on_attempt`] decides, after each
//! attempt, whether the endpoint is ready, whether to retry after the
//! backoff, or whether the overall budget has elapsed.

use vstd::prelude::*;

verus! {

/// Per-attempt connect budget the driver should use.
pub const ATTEMPT_TIMEOUT_MS: u64 = 1000;

/// Pause between consecutive attempts.
pub const BACKOFF_MS: u64 = 500;

/// What the prober decides after one connection attempt.
#[derive(Clone, Copy, Debug, PartialEq, Eq, Structural)]
pub enum ProbeVerdict {
    /// The endpoint accepted: the service is ready.
    Ready,
    /// Not accepting yet; sleep one backoff interval and try again.
    RetryAfterBackoff,
    /// The overall budget would elapse before the next attempt: give up.
    TimedOut,
}

/// The prober's bookkeeping for one readiness wait.
///
/// `elapsed_ms` is the model time of the attempt about to be recorded.
pub struct Prober {
    pub timeout_ms: u64,
    pub backoff_ms: u64,
    pub elapsed_ms: u64,
}

/// The verdict after an attempt at time `elapsed` whose outcome was
/// `connected`: ready on success, timed out when the next attempt would not
/// start before the budget elapses, otherwise retry.
pub open spec fn verdict_of(timeout: int, backoff: int, elapsed: int, connected: bool) -> ProbeVerdict {
    if connected {
        ProbeVerdict::Ready
    } else if elapsed + backoff >= timeout {
        ProbeVerdict::TimedOut
    } else {
        ProbeVerdict::RetryAfterBackoff
    }
}

/// The elapsed time after the attempt and, on retry or timeout, the sleep
/// that follows it.
pub open spec fn elapsed_after(timeout: int, backoff: int, elapsed: int, connected: bool) -> int {
    if connected {
        elapsed
    } else {
        elapsed + backoff
    }
}

impl Prober {
    /// A schedule is well formed while its budget has not yet elapsed.
    pub open spec fn wf(&self) -> bool {
        &&& self.backoff_ms >= 1
        &&& self.timeout_ms >= 1
        &&& self.elapsed_ms < self.timeout_ms
    }

    /// Start a readiness wait with the given budget and backoff.
    pub fn new(timeout_ms: u64, backoff_ms: u64) -> (p: Prober)
        requires
            timeout_ms >= 1,
            backoff_ms >= 1,
        ensures
            p.wf(),
            p.timeout_ms == timeout_ms,
            p.backoff_ms == backoff_ms,
            p.elapsed_ms == 0,
    {
        Prober { timeout_ms, backoff_ms, elapsed_ms: 0 }
    }

    /// Record the outcome of the attempt at the current model time and
    /// decide how the wait goes on.  On `RetryAfterBackoff` the driver must
    /// sleep one backoff interval before the next attempt; on `TimedOut` the
    /// wait has failed and took at least the whole budget; on `Ready` it has
    /// succeeded.
    pub fn on_attempt(&mut self, connected: bool) -> (v: ProbeVerdict)
        requires
            old(self).wf(),
        ensures
            v == verdict_of(
                old(self).timeout_ms as int,
                old(self).backoff_ms as int,
                old(self).elapsed_ms as int,
                connected,
            ),
            final(self).timeout_ms == old(self).timeout_ms,
            final(self).backoff_ms == old(self).backoff_ms,
            final(self).elapsed_ms == if elapsed_after(
                old(self).timeout_ms as int,
                old(self).backoff_ms as int,
                old(self).elapsed_ms as int,
                connected,
            ) > old(self).timeout_ms {
                old(self).timeout_ms as int
            } else {
                elapsed_after(
                    old(self).timeout_ms as int,
                    old(self).backoff_ms as int,
                    old(self).elapsed_ms as int,
                    connected,
                )
            },
            v == ProbeVerdict::RetryAfterBackoff ==> final(self).wf(),
            v == ProbeVerdict::TimedOut ==> final(self).elapsed_ms == final(self).timeout_ms,
    {
        if connected {
            ProbeVerdict::Ready
        } else if self.backoff_ms >= self.timeout_ms - self.elapsed_ms {
            self.elapsed_ms = self.timeout_ms;
            ProbeVerdict::TimedOut
        } else {
            self.elapsed_ms = self.elapsed_ms + self.backoff_ms;
            ProbeVerdict::RetryAfterBackoff
        }
    }
}

/// The whole wait, at the specification level, against an endpoint that
/// starts accepting connections at model time `accept_at` (an endpoint that
/// never accepts within the budget is one with `accept_at >= timeout`).
/// The result is whether the wait succeeded and the model time at which the
/// driver learns it: the time of the successful attempt, or the time after
/// the final sleep when the budget has elapsed.
pub open spec fn wait_outcome(timeout: int, backoff: int, accept_at: int, elapsed: int) -> (bool, int)
    decreases timeout - elapsed when 0 <= elapsed < timeout && backoff >= 1
{
    if elapsed >= accept_at {
        (true, elapsed)
    } else if elapsed + backoff >= timeout {
        (false, elapsed + backoff)
    } else {
        wait_outcome(timeout, backoff, accept_at, elapsed + backoff)
    }
}

/// One attempt as [`Prober::on_attempt`] decides it is one step of the
/// whole wait: against an endpoint accepting from `accept_at` on, a ready
/// verdict ends the wait successfully at the attempt's time, a timeout
/// verdict ends it unsuccessfully after the final sleep, and a retry
/// verdict continues it one backoff later.
pub proof fn lemma_wait_outcome_step(timeout: int, backoff: int, accept_at: int, elapsed: int)
    requires
        backoff >= 1,
        0 <= elapsed < timeout,
    ensures
        ({
            let connected = elapsed >= accept_at;
            match verdict_of(timeout, backoff, elapsed, connected) {
                ProbeVerdict::Ready => wait_outcome(timeout, backoff, accept_at, elapsed) == (
                true,
                elapsed,
                ),
                ProbeVerdict::TimedOut => wait_outcome(timeout, backoff, accept_at, elapsed) == (
                false,
                elapsed + backoff,
                ),
                ProbeVerdict::RetryAfterBackoff => wait_outcome(timeout, backoff, accept_at, elapsed)
                    == wait_outcome(timeout, backoff, accept_at, elapsed + backoff),
            }
        }),
{
}

/// An endpoint that starts accepting early enough is reported ready no later
/// than one backoff interval after it starts accepting.
///
/// "Early enough" means the first attempt at or after `accept_at` still
/// falls inside the budget, for which `accept_at + backoff <= timeout` is
/// sufficient.  An endpoint that starts accepting later than that — say at
/// `timeout - 1` with the attempt schedule already past it — may still be
/// reported as timed out.
pub proof fn lemma_wait_ready_promptly(timeout: int, backoff: int, accept_at: int, elapsed: int)
    requires
        backoff >= 1,
        0 <= elapsed,
        elapsed < accept_at + backoff,
        accept_at + backoff <= timeout,
        0 <= accept_at,
    ensures
        wait_outcome(timeout, backoff, accept_at, elapsed).0,
        wait_outcome(timeout, backoff, accept_at, elapsed).1 <= accept_at + backoff,
    decreases timeout - elapsed,
{
    if elapsed >= accept_at {
        // The attempt at `elapsed` succeeds, and `elapsed < accept_at + backoff`.
    } else {
        // `elapsed + backoff < accept_at + backoff <= timeout`, so the wait
        // does not give up here and the next attempt keeps the bound.
        lemma_wait_ready_promptly(timeout, backoff, accept_at, elapsed + backoff);
    }
}

/// An endpoint that never starts accepting within the budget is reported
/// timed out, and only once at least the whole budget has elapsed.
pub proof fn lemma_wait_times_out_late(timeout: int, backoff: int, accept_at: int, elapsed: int)
    requires
        backoff >= 1,
        0 <= elapsed < timeout,
        accept_at >= timeout,
    ensures
        !wait_outcome(timeout, backoff, accept_at, elapsed).0,
        wait_outcome(timeout, backoff, accept_at, elapsed).1 >= timeout,
    decreases timeout - elapsed,
{
    if elapsed >= accept_at {
        // Impossible: elapsed < timeout <= accept_at.
    } else if elapsed + backoff >= timeout {
        // The wait gives up at `elapsed + backoff >= timeout`.
    } else {
        lemma_wait_times_out_late(timeout, backoff, accept_at, elapsed + backoff);
    }
}

} // verus!
