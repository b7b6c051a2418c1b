use browser_automation::errors::Error;
use browser_automation::jitter::random_delay;
use browser_automation::poll::wait_for_element;
use browser_automation::poll::PollDecision;
use browser_automation::poll::PollState;
use browser_automation::retry::retry_with_backoff;
use browser_automation::retry::RetryDecision;
use browser_automation::retry::RetryOutcome;
use browser_automation::retry::RetryState;
use browser_automation::session::BrowserSession;

#[test]
fn always_failing_operation_is_invoked_exactly_max_retries_times() {
    let outcomes = vec![false, false, false];
    let result = retry_with_backoff(3, 100, &outcomes);
    assert_eq!(result, RetryOutcome::LastError { attempts: 3 });
}

#[test]
fn single_attempt_budget_returns_the_first_error() {
    let outcomes = vec![false];
    let result = retry_with_backoff(1, 100, &outcomes);
    assert_eq!(result, RetryOutcome::LastError { attempts: 1 });
}

#[test]
fn operation_succeeding_on_attempt_k_is_invoked_exactly_k_times() {
    let outcomes = vec![false, true, false];
    let result = retry_with_backoff(3, 100, &outcomes);
    assert_eq!(result, RetryOutcome::Success { attempts: 2 });

    let immediate = retry_with_backoff(3, 100, &vec![true, false, false]);
    assert_eq!(immediate, RetryOutcome::Success { attempts: 1 });
}

#[test]
fn zero_attempt_budget_is_the_only_source_of_the_limit_signal() {
    let result = retry_with_backoff(0, 100, &vec![]);
    assert_eq!(result, RetryOutcome::LimitReached);
}

#[test]
fn backoff_delay_doubles_after_each_failure() {
    let mut state = RetryState::start(100);

    assert_eq!(state.step(4, false), RetryDecision::SleepAndRetry { delay_ms: 100 });
    assert_eq!(state.step(4, false), RetryDecision::SleepAndRetry { delay_ms: 200 });
    assert_eq!(state.step(4, false), RetryDecision::SleepAndRetry { delay_ms: 400 });
    assert_eq!(state.step(4, false), RetryDecision::FailLastError);
}

#[test]
fn backoff_delay_saturates_instead_of_overflowing() {
    let mut state = RetryState::start(u64::MAX - 1);
    assert_eq!(
        state.step(3, false),
        RetryDecision::SleepAndRetry { delay_ms: u64::MAX - 1 }
    );
    assert_eq!(state.step(3, false), RetryDecision::SleepAndRetry { delay_ms: u64::MAX });
}

#[test]
fn poll_times_out_only_after_the_timeout_has_elapsed() {
    // Probes at elapsed 0, 3, 6 and 9 milliseconds; the fourth failure
    // charges the elapsed time to 12, past the 10 millisecond budget.
    let probes = vec![None, None, None, None];
    let result = wait_for_element(10, 3, &probes);
    assert_eq!(result.unwrap_err(), Error::Timeout(12));
}

#[test]
fn poll_with_interval_dividing_timeout_expires_exactly_on_it() {
    let probes = vec![None, None];
    let result = wait_for_element(10, 5, &probes);
    assert_eq!(result.unwrap_err(), Error::Timeout(10));
}

#[test]
fn poll_returns_the_first_element_that_resolves() {
    let session = BrowserSession::new("https://example.test/", true, true).unwrap();
    let element = session.find_element("div#late", true).unwrap();

    let probes = vec![None, Some(element), None];
    let result = wait_for_element(30, 10, &probes);
    assert_eq!(result.unwrap(), element);
}

#[test]
fn poll_state_charges_one_interval_per_failure() {
    let mut state = PollState::start();
    assert_eq!(state.step(10, 4, false), PollDecision::SleepAndRetry);
    assert_eq!(state.elapsed_now(), 4);
    assert_eq!(state.step(10, 4, true), PollDecision::Done);
    assert_eq!(state.elapsed_now(), 4);
    assert_eq!(state.step(10, 4, false), PollDecision::SleepAndRetry);
    assert_eq!(state.step(10, 4, false), PollDecision::TimedOut { elapsed_ms: 12 });
}

#[test]
fn random_delay_respects_both_bounds() {
    for _ in 0..50 {
        let delay = random_delay(5, 10);
        assert!(5 <= delay && delay <= 10);
    }
    assert_eq!(random_delay(7, 7), 7);
}
