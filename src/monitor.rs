//! Supervision of a room connector: when a failed connection is retried and
//! when the connector gives up.

use vstd::prelude::*;

verus! {

/// Failures closer together than this count against the budget.
pub const ALLOW_FAIL_DURATION_MS: u64 = 300_000;

/// The connector gives up when its counter of close failures exceeds this.
pub const MAX_CLOSE_FAILURES: u32 = 5;

#[derive(PartialEq, Eq, Structural, Clone, Copy, Debug)]
pub enum RetryDecision {
    /// Reconnect at once.
    Retry,
    /// Stop and report the failure.
    GiveUp,
}

/// The failure record of one connector; times are milliseconds on a monotonic
/// clock.
#[derive(PartialEq, Eq, Structural, Clone, Copy, Debug)]
pub struct ErrorBudget {
    pub last_failure_ms: u64,
    pub err_counter: u32,
}

/// Time from `earlier` to `later`, or 0 if the clock reads earlier.
pub open spec fn gap(earlier: u64, later: u64) -> int {
    if later >= earlier {
        later - earlier
    } else {
        0
    }
}

/// The budget and decision after a failure at `now_ms`: a failure within five
/// minutes of the last one adds to the counter and gives up once the counter
/// exceeds five; a later failure starts the counter again at one.
pub open spec fn after_failure(b: ErrorBudget, now_ms: u64) -> (ErrorBudget, RetryDecision) {
    if gap(b.last_failure_ms, now_ms) < ALLOW_FAIL_DURATION_MS {
        let c = if b.err_counter < u32::MAX {
            (b.err_counter + 1) as u32
        } else {
            b.err_counter
        };
        if c > MAX_CLOSE_FAILURES {
            (ErrorBudget { err_counter: c, ..b }, RetryDecision::GiveUp)
        } else {
            (ErrorBudget { last_failure_ms: now_ms, err_counter: c }, RetryDecision::Retry)
        }
    } else {
        (ErrorBudget { last_failure_ms: now_ms, err_counter: 1 }, RetryDecision::Retry)
    }
}

impl ErrorBudget {
    /// The budget of a connector that started at `now_ms`.
    pub fn new(now_ms: u64) -> (r: ErrorBudget)
        ensures
            r == (ErrorBudget { last_failure_ms: now_ms, err_counter: 0 }),
    {
        ErrorBudget { last_failure_ms: now_ms, err_counter: 0 }
    }

    /// Records a failure at `now_ms` and decides whether to reconnect.
    pub fn on_failure(&mut self, now_ms: u64) -> (r: RetryDecision)
        ensures
            (*final(self), r) == after_failure(*old(self), now_ms),
    {
        let gap: u64 = if now_ms >= self.last_failure_ms {
            now_ms - self.last_failure_ms
        } else {
            0
        };
        if gap < ALLOW_FAIL_DURATION_MS {
            self.err_counter = self.err_counter.saturating_add(1);
            if self.err_counter > MAX_CLOSE_FAILURES {
                return RetryDecision::GiveUp;
            }
        } else {
            self.err_counter = 1;
        }
        self.last_failure_ms = now_ms;
        RetryDecision::Retry
    }
}

/// Six failures in a row, each within five minutes of the previous one, make a
/// fresh connector give up at the sixth.
pub proof fn lemma_gives_up_after_six_quick_failures(start: u64, t: Seq<u64>)
    requires
        t.len() == 6,
        start <= t[0] && t[0] - start < ALLOW_FAIL_DURATION_MS,
        forall|i: int| 0 < i < 6 ==> t[i - 1] <= #[trigger] t[i] && t[i] - t[i - 1] < ALLOW_FAIL_DURATION_MS,
    ensures
        ({
            let b0 = ErrorBudget { last_failure_ms: start, err_counter: 0 };
            let s1 = after_failure(b0, t[0]);
            let s2 = after_failure(s1.0, t[1]);
            let s3 = after_failure(s2.0, t[2]);
            let s4 = after_failure(s3.0, t[3]);
            let s5 = after_failure(s4.0, t[4]);
            let s6 = after_failure(s5.0, t[5]);
            &&& s1.1 == RetryDecision::Retry && s2.1 == RetryDecision::Retry
            &&& s3.1 == RetryDecision::Retry && s4.1 == RetryDecision::Retry
            &&& s5.1 == RetryDecision::Retry && s6.1 == RetryDecision::GiveUp
        }),
{
    assert(t[0] <= t[1] && t[1] - t[0] < ALLOW_FAIL_DURATION_MS);
    assert(t[1] <= t[2] && t[2] - t[1] < ALLOW_FAIL_DURATION_MS);
    assert(t[2] <= t[3] && t[3] - t[2] < ALLOW_FAIL_DURATION_MS);
    assert(t[3] <= t[4] && t[4] - t[3] < ALLOW_FAIL_DURATION_MS);
    assert(t[4] <= t[5] && t[5] - t[4] < ALLOW_FAIL_DURATION_MS);
}

} // verus!
