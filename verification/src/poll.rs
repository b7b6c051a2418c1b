use vstd::prelude::*;

use crate::elements::WebElement;
use crate::errors::Error;

verus! {

/// What the poll primitive decides after one attempt of the wrapped
/// operation has been observed.
#[derive(Clone, Copy, PartialEq, Eq, Structural, Debug)]
pub enum PollDecision {
    /// The attempt succeeded: hand its result to the caller.
    Done,
    /// The accumulated elapsed time has reached the timeout: discard the
    /// last underlying error and hand the caller a uniform timeout signal
    /// describing `elapsed_ms`.
    TimedOut { elapsed_ms: u64 },
    /// Time remains: sleep for one poll interval, then attempt again.
    SleepAndRetry,
}

/// Every probe in the window `[0, n)` came back empty.
pub open spec fn probes_all_none(probes: Seq<Option<WebElement>>, n: int) -> bool {
    forall|j: int| 0 <= j < n ==> probes[j] is None
}

/// The loop counter of one poll-until-success run: the time spent so far,
/// as the sum of the pauses between attempts. The primitive holds no other
/// state; the caller drives it by reporting each attempt's outcome to
/// `step` and acting on the decision.
#[derive(Clone, Copy, PartialEq, Eq, Structural, Debug)]
pub struct PollState {
    elapsed_ms: u64,
}

impl PollState {
    /// The accumulated elapsed time, charged one poll interval per failed
    /// attempt.
    pub closed spec fn elapsed(self) -> u64 {
        self.elapsed_ms
    }

    /// Executable mirror of `elapsed`, for callers outside verified code.
    pub fn elapsed_now(&self) -> (e: u64)
        ensures
            e == self.elapsed(),
    {
        self.elapsed_ms
    }

    /// A fresh run: no time spent yet.
    pub fn start() -> (s: PollState)
        ensures
            s.elapsed() == 0,
    {
        PollState { elapsed_ms: 0 }
    }

    /// Records one attempt of the wrapped operation and decides what
    /// follows. Success is handed through at once; a failure is charged one
    /// poll interval, and the run times out as soon as the accumulated
    /// elapsed time reaches the timeout — never before.
    pub fn step(&mut self, timeout_ms: u64, poll_interval_ms: u64, attempt_ok: bool) -> (d:
        PollDecision)
        requires
            old(self).elapsed() < timeout_ms,
            1 <= poll_interval_ms,
            timeout_ms + poll_interval_ms <= u64::MAX,
        ensures
            attempt_ok ==> d == PollDecision::Done && *final(self) == *old(self),
            !attempt_ok ==> final(self).elapsed() == old(self).elapsed() + poll_interval_ms,
            !attempt_ok && old(self).elapsed() + poll_interval_ms >= timeout_ms ==> d
                == (PollDecision::TimedOut { elapsed_ms: final(self).elapsed() }),
            !attempt_ok && old(self).elapsed() + poll_interval_ms < timeout_ms ==> d
                == PollDecision::SleepAndRetry,
    {
        if attempt_ok {
            PollDecision::Done
        } else {
            self.elapsed_ms = self.elapsed_ms + poll_interval_ms;
            if self.elapsed_ms >= timeout_ms {
                PollDecision::TimedOut { elapsed_ms: self.elapsed_ms }
            } else {
                PollDecision::SleepAndRetry
            }
        }
    }
}

/// Poll-until-success over a whole run: attempt, and on failure wait one
/// poll interval and attempt again, until a success or until the
/// accumulated elapsed time reaches the timeout. `probes[k]` is what the
/// k-th attempt resolved, an element or nothing; the sleeps between
/// attempts are the caller's business and are scheduled by
/// `PollState::step`.
///
/// Whenever some attempt resolves within the timeout window the run
/// succeeds, with the element of the first attempt that resolved. Only an
/// operation that fails on every attempt inside the window ends in a
/// timeout signal, and only after the accumulated elapsed time has reached
/// the timeout; the signal describes that elapsed duration, and the last
/// underlying error is deliberately discarded in favor of this uniform
/// contract.
pub fn wait_for_element(timeout_ms: u64, poll_interval_ms: u64, probes: &Vec<Option<WebElement>>)
    -> (r: Result<WebElement, Error>)
    requires
        1 <= poll_interval_ms,
        timeout_ms + poll_interval_ms <= u64::MAX,
        probes@.len() * (poll_interval_ms as int) >= timeout_ms,
    ensures
        r matches Ok(h) ==> exists|k: int|
            0 <= k < probes@.len() && #[trigger] probes@[k] == Some(h) && k * (
            poll_interval_ms as int) < timeout_ms && probes_all_none(probes@, k),
        (exists|k: int|
            0 <= k < probes@.len() && (#[trigger] probes@[k]) is Some && k * (
            poll_interval_ms as int) < timeout_ms) ==> r is Ok,
        (forall|k: int|
            0 <= k < probes@.len() && k * (poll_interval_ms as int) < timeout_ms ==> (
            #[trigger] probes@[k]) is None) ==> (r matches Err(e) && e matches Error::Timeout(
            elapsed) && timeout_ms <= elapsed < timeout_ms + poll_interval_ms),
{
    let n: usize = probes.len();
    let mut state = PollState::start();
    let mut i: usize = 0;
    while state.elapsed_now() < timeout_ms
        invariant
            1 <= poll_interval_ms,
            timeout_ms + poll_interval_ms <= u64::MAX,
            n == probes@.len(),
            (n as int) * (poll_interval_ms as int) >= timeout_ms,
            state.elapsed() == (i as int) * (poll_interval_ms as int),
            state.elapsed() < timeout_ms + poll_interval_ms,
            probes_all_none(probes@, i as int),
        decreases timeout_ms - state.elapsed(),
    {
        assert(i < n) by (nonlinear_arith)
            requires
                (i as int) * (poll_interval_ms as int) < timeout_ms,
                (n as int) * (poll_interval_ms as int) >= timeout_ms,
                1 <= poll_interval_ms,
        ;
        let probe = probes[i];
        let decision = state.step(timeout_ms, poll_interval_ms, probe.is_some());
        match decision {
            PollDecision::Done => {
                match probe {
                    Some(h) => {
                        return Ok(h);
                    },
                    None => {
                        assert(false);
                    },
                }
            },
            PollDecision::TimedOut { elapsed_ms } => {
                proof {
                    // The whole timeout window has been probed: anything at
                    // or past index i + 1 would start only at or after the
                    // timeout.
                    assert forall|k: int|
                        0 <= k < probes@.len() && k * (poll_interval_ms as int)
                            < timeout_ms implies (#[trigger] probes@[k]) is None by {
                        assert(k <= i as int) by (nonlinear_arith)
                            requires
                                k * (poll_interval_ms as int) < timeout_ms,
                                timeout_ms <= (i as int) * (poll_interval_ms as int)
                                    + poll_interval_ms,
                                1 <= poll_interval_ms,
                        ;
                    }
                }
                return Err(Error::Timeout(elapsed_ms));
            },
            PollDecision::SleepAndRetry => {},
        }
        assert((i as int + 1) * (poll_interval_ms as int) == (i as int) * (poll_interval_ms as int)
            + poll_interval_ms) by (nonlinear_arith);
        i = i + 1;
    }
    proof {
        // A zero timeout lets the loop exit before any probe; every index
        // then starts at or after the timeout, so the window is empty too.
        assert forall|k: int|
            0 <= k < probes@.len() && k * (poll_interval_ms as int) < timeout_ms implies (
        #[trigger] probes@[k]) is None by {
            assert(k < i as int) by (nonlinear_arith)
                requires
                    k * (poll_interval_ms as int) < timeout_ms,
                    timeout_ms <= (i as int) * (poll_interval_ms as int),
                    1 <= poll_interval_ms,
            ;
        }
    }
    Err(Error::Timeout(state.elapsed_now()))
}

} // verus!
