use vstd::prelude::*;

verus! {

/// What the retry primitive decides after one invocation of the wrapped
/// operation has been observed.
#[derive(Clone, Copy, PartialEq, Eq, Structural, Debug)]
pub enum RetryDecision {
    /// The invocation succeeded: hand its result to the caller.
    Succeed,
    /// The invocation failed and the attempt budget is spent: hand that
    /// last error to the caller verbatim.
    FailLastError,
    /// The invocation failed and attempts remain: sleep for `delay_ms`,
    /// then invoke again.
    SleepAndRetry { delay_ms: u64 },
}

/// The delay after one more failure: double, saturating at the largest
/// representable delay.
pub open spec fn doubled(delay_ms: u64) -> u64 {
    if delay_ms <= u64::MAX / 2 {
        (2 * delay_ms) as u64
    } else {
        u64::MAX
    }
}

/// Every outcome in the window `[0, n)` is a failure.
pub open spec fn all_fail_before(outcomes: Seq<bool>, n: int) -> bool {
    forall|j: int| 0 <= j < n ==> !outcomes[j]
}

/// The loop counters of one bounded-retry-with-exponential-backoff run: how
/// many invocations have been made, and how long the next pause would be.
/// The primitive holds no other state; the caller drives it by reporting
/// each invocation's outcome to `step` and acting on the decision.
#[derive(Clone, Copy, PartialEq, Eq, Structural, Debug)]
pub struct RetryState {
    attempts: u32,
    delay_ms: u64,
}

impl RetryState {
    /// How many invocations of the wrapped operation have been made.
    pub closed spec fn attempts_made(self) -> u32 {
        self.attempts
    }

    /// The pause that the next failure would cost.
    pub closed spec fn next_delay_ms(self) -> u64 {
        self.delay_ms
    }

    /// Executable mirror of `attempts_made`, for callers outside verified
    /// code.
    pub fn attempts_now(&self) -> (a: u32)
        ensures
            a == self.attempts_made(),
    {
        self.attempts
    }

    /// A fresh run: nothing invoked yet, the first pause is the base delay.
    pub fn start(backoff_ms: u64) -> (s: RetryState)
        ensures
            s.attempts_made() == 0,
            s.next_delay_ms() == backoff_ms,
    {
        RetryState { attempts: 0, delay_ms: backoff_ms }
    }

    /// Records one invocation of the wrapped operation and decides what
    /// follows. Success is handed through at once; a failure costs a pause
    /// of the current delay and doubles it, until the final permitted
    /// failure, whose error is handed through verbatim.
    pub fn step(&mut self, max_retries: u32, attempt_ok: bool) -> (d: RetryDecision)
        requires
            old(self).attempts_made() < max_retries,
        ensures
            final(self).attempts_made() == old(self).attempts_made() + 1,
            attempt_ok ==> d == RetryDecision::Succeed
                && final(self).next_delay_ms() == old(self).next_delay_ms(),
            !attempt_ok && old(self).attempts_made() + 1 < max_retries ==> d
                == (RetryDecision::SleepAndRetry { delay_ms: old(self).next_delay_ms() })
                && final(self).next_delay_ms() == doubled(old(self).next_delay_ms()),
            !attempt_ok && old(self).attempts_made() + 1 == max_retries ==> d
                == RetryDecision::FailLastError,
    {
        self.attempts = self.attempts + 1;
        if attempt_ok {
            RetryDecision::Succeed
        } else if self.attempts < max_retries {
            let pause = self.delay_ms;
            self.delay_ms = if self.delay_ms <= u64::MAX / 2 {
                2 * self.delay_ms
            } else {
                u64::MAX
            };
            RetryDecision::SleepAndRetry { delay_ms: pause }
        } else {
            RetryDecision::FailLastError
        }
    }
}

/// How one bounded-retry run ended, and after how many invocations.
#[derive(Clone, Copy, PartialEq, Eq, Structural, Debug)]
pub enum RetryOutcome {
    /// The operation succeeded on invocation number `attempts` (1-based),
    /// and that success is what the caller receives.
    Success { attempts: u32 },
    /// Every one of the `attempts` permitted invocations failed; the caller
    /// receives the error of the final invocation verbatim, not a synthetic
    /// "limit reached" signal.
    LastError { attempts: u32 },
    /// The attempt budget was configured as zero, so the operation was
    /// never invoked; only this degenerate configuration produces the
    /// generic limit signal.
    LimitReached,
}

/// Bounded retry with exponential backoff over a whole run. `outcomes[k]`
/// reports whether invocation number `k + 1` of the wrapped operation
/// succeeds; the sleeps between failures are the caller's business and are
/// scheduled by `RetryState::step`.
///
/// For every budget of at least one attempt: an operation that always fails
/// is invoked exactly `max_retries` times and its final error is returned
/// verbatim, and an operation that first succeeds on invocation `k` with
/// `k <= max_retries` is invoked exactly `k` times and that success is
/// returned.
pub fn retry_with_backoff(max_retries: u32, backoff_ms: u64, outcomes: &Vec<bool>) -> (r:
    RetryOutcome)
    requires
        outcomes@.len() >= max_retries,
    ensures
        max_retries == 0 ==> r == RetryOutcome::LimitReached,
        max_retries >= 1 && all_fail_before(outcomes@, max_retries as int) ==> r
            == (RetryOutcome::LastError { attempts: max_retries }),
        max_retries >= 1 && !all_fail_before(outcomes@, max_retries as int) ==> (r matches
            RetryOutcome::Success { attempts } && 1 <= attempts <= max_retries && outcomes@[
            attempts - 1] && all_fail_before(outcomes@, attempts - 1)),
{
    let mut state = RetryState::start(backoff_ms);
    let mut i: u32 = 0;
    while i < max_retries
        invariant
            max_retries == 0 || i < max_retries,
            outcomes@.len() >= max_retries,
            state.attempts_made() == i,
            all_fail_before(outcomes@, i as int),
        decreases max_retries - i,
    {
        let attempt_ok = outcomes[i as usize];
        let decision = state.step(max_retries, attempt_ok);
        match decision {
            RetryDecision::Succeed => {
                return RetryOutcome::Success { attempts: i + 1 };
            },
            RetryDecision::FailLastError => {
                return RetryOutcome::LastError { attempts: i + 1 };
            },
            RetryDecision::SleepAndRetry { .. } => {
                i = i + 1;
            },
        }
    }
    RetryOutcome::LimitReached
}

} // verus!
