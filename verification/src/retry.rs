//! Decisions of the retry loop that wraps calls whose errors carry a gRPC
//! status: a call is retried, after a pause, only when it failed with
//! `Unavailable` or `Internal`, and at most `max_retries` times.

use vstd::prelude::*;
use crate::status::StatusCode;

verus! {

/// What an attempt of the retried call came back with.
#[derive(Clone, Copy, Debug, PartialEq, Eq, Structural)]
pub enum AttemptOutcome {
    /// The call succeeded.
    Succeeded,
    /// The call failed with this status code.
    Failed(StatusCode),
}

/// What the retry loop does after an attempt.
#[derive(Clone, Copy, Debug, PartialEq, Eq, Structural)]
pub enum RetryAction {
    /// Hand back the call's successful result.
    ReturnSuccess,
    /// Hand back the call's failure at once: it is not one worth retrying.
    ReturnFailure,
    /// Pause, then attempt again; `retries` is the count of retries made so far.
    SleepThenRetry { retries: i32 },
    /// No retries are left: hand back the last failure.
    ReturnLastFailure,
}

/// A failure with this code is worth retrying.
pub open spec fn spec_is_retryable(code: StatusCode) -> bool {
    code == StatusCode::Unavailable || code == StatusCode::Internal
}

/// What follows an attempt, after `retries` retries of at most `max_retries`.
pub open spec fn spec_next_retry_action(retries: i32, max_retries: i32, outcome: AttemptOutcome) -> RetryAction {
    match outcome {
        AttemptOutcome::Succeeded => RetryAction::ReturnSuccess,
        AttemptOutcome::Failed(code) => if !spec_is_retryable(code) {
            RetryAction::ReturnFailure
        } else if retries < max_retries {
            RetryAction::SleepThenRetry { retries: (retries + 1) as i32 }
        } else {
            RetryAction::ReturnLastFailure
        },
    }
}

/// Is a failure with this code worth retrying?
pub fn is_retryable(code: StatusCode) -> (r: bool)
    ensures
        r == spec_is_retryable(code),
        r <==> (code == StatusCode::Unavailable || code == StatusCode::Internal),
{
    match code {
        StatusCode::Unavailable => true,
        StatusCode::Internal => true,
        _ => false,
    }
}

/// Decide what the retry loop does after an attempt.
///
/// # Arguments
/// * `retries` - The number of retries made so far.
/// * `max_retries` - The maximum number of retries.
/// * `outcome` - What the attempt came back with.
pub fn next_retry_action(retries: i32, max_retries: i32, outcome: AttemptOutcome) -> (r: RetryAction)
    ensures
        r == spec_next_retry_action(retries, max_retries, outcome),
        outcome is Succeeded ==> r == RetryAction::ReturnSuccess,
        outcome matches AttemptOutcome::Failed(code) && code != StatusCode::Unavailable && code != StatusCode::Internal
            ==> r == RetryAction::ReturnFailure,
        outcome matches AttemptOutcome::Failed(code) && (code == StatusCode::Unavailable || code == StatusCode::Internal)
            ==> (if retries < max_retries {
                r == (RetryAction::SleepThenRetry { retries: (retries + 1) as i32 })
            } else {
                r == RetryAction::ReturnLastFailure
            }),
{
    match outcome {
        AttemptOutcome::Succeeded => RetryAction::ReturnSuccess,
        AttemptOutcome::Failed(code) => {
            if !is_retryable(code) {
                RetryAction::ReturnFailure
            } else if retries < max_retries {
                RetryAction::SleepThenRetry { retries: retries + 1 }
            } else {
                RetryAction::ReturnLastFailure
            }
        },
    }
}

/// Run the loop from `retries` retries against the attempts' outcomes in order.
/// The result is the action that ends the loop and the number of attempts made,
/// or `None` when the outcomes run out before the loop ends.
pub open spec fn run_retry_loop(retries: i32, max_retries: i32, outcomes: Seq<AttemptOutcome>) -> Option<(RetryAction, nat)>
    decreases outcomes.len(),
{
    if outcomes.len() == 0 {
        None
    } else {
        match spec_next_retry_action(retries, max_retries, outcomes[0]) {
            RetryAction::SleepThenRetry { retries: next } => match run_retry_loop(next, max_retries, outcomes.drop_first()) {
                Some((action, n)) => Some((action, n + 1)),
                None => None,
            },
            action => Some((action, 1)),
        }
    }
}

/// Every outcome is a failure worth retrying.
pub open spec fn all_retryable_failures(outcomes: Seq<AttemptOutcome>) -> bool {
    forall|i: int| 0 <= i < outcomes.len() ==> (#[trigger] outcomes[i] matches AttemptOutcome::Failed(code) && spec_is_retryable(code))
}

/// The loop ends with a pause-free action, never with another retry.
pub proof fn lemma_loop_never_ends_in_retry(retries: i32, max_retries: i32, outcomes: Seq<AttemptOutcome>)
    ensures
        run_retry_loop(retries, max_retries, outcomes) matches Some((action, n)) ==> !(action is SleepThenRetry) && n >= 1,
    decreases outcomes.len(),
{
    if outcomes.len() > 0 {
        if let RetryAction::SleepThenRetry { retries: next } = spec_next_retry_action(retries, max_retries, outcomes[0]) {
            lemma_loop_never_ends_in_retry(next, max_retries, outcomes.drop_first());
        }
    }
}

/// The call is attempted at most once more than the retries that are left:
/// from `retries` retries of at most `max_retries`, no more than
/// `max_retries - retries + 1` attempts are made (one, when none are left).
pub proof fn lemma_attempts_are_bounded(retries: i32, max_retries: i32, outcomes: Seq<AttemptOutcome>)
    ensures
        run_retry_loop(retries, max_retries, outcomes) matches Some((_, n)) ==>
            n <= (if retries < max_retries { max_retries - retries } else { 0 }) + 1,
    decreases outcomes.len(),
{
    if outcomes.len() > 0 {
        if let RetryAction::SleepThenRetry { retries: next } = spec_next_retry_action(retries, max_retries, outcomes[0]) {
            lemma_attempts_are_bounded(next, max_retries, outcomes.drop_first());
        }
    }
}

/// When every attempt fails in a way worth retrying and enough attempts are
/// made, the loop gives up with the last failure after exactly
/// `max_retries - retries + 1` attempts.
pub proof fn lemma_retryable_failures_exhaust_retries(retries: i32, max_retries: i32, outcomes: Seq<AttemptOutcome>)
    requires
        retries <= max_retries,
        all_retryable_failures(outcomes),
        outcomes.len() >= max_retries - retries + 1,
    ensures
        run_retry_loop(retries, max_retries, outcomes) == Some((RetryAction::ReturnLastFailure, (max_retries - retries + 1) as nat)),
    decreases outcomes.len(),
{
    assert(outcomes[0] matches AttemptOutcome::Failed(code) && spec_is_retryable(code));
    if retries < max_retries {
        let rest = outcomes.drop_first();
        assert forall|i: int| 0 <= i < rest.len() implies (#[trigger] rest[i] matches AttemptOutcome::Failed(code) && spec_is_retryable(code)) by {
            assert(rest[i] == outcomes[i + 1]);
        }
        lemma_retryable_failures_exhaust_retries((retries + 1) as i32, max_retries, rest);
    }
}

/// A success ends the loop at once, and so does a failure not worth retrying.
pub proof fn lemma_first_decisive_outcome_ends_loop(retries: i32, max_retries: i32, outcomes: Seq<AttemptOutcome>)
    requires
        outcomes.len() > 0,
    ensures
        outcomes[0] == AttemptOutcome::Succeeded ==>
            run_retry_loop(retries, max_retries, outcomes) == Some((RetryAction::ReturnSuccess, 1nat)),
        outcomes[0] matches AttemptOutcome::Failed(code) && !spec_is_retryable(code) ==>
            run_retry_loop(retries, max_retries, outcomes) == Some((RetryAction::ReturnFailure, 1nat)),
{
}

/// How many times the loop sleeps before it ends (or the outcomes run out).
pub open spec fn retry_sleeps(retries: i32, max_retries: i32, outcomes: Seq<AttemptOutcome>) -> nat
    decreases outcomes.len(),
{
    if outcomes.len() == 0 {
        0
    } else {
        match spec_next_retry_action(retries, max_retries, outcomes[0]) {
            RetryAction::SleepThenRetry { retries: next } => 1 + retry_sleeps(next, max_retries, outcomes.drop_first()),
            _ => 0,
        }
    }
}

/// With only retryable failures, the loop that has retried `retries` times
/// sleeps `max_retries - retries` more times before it gives up.
proof fn lemma_retryable_failures_sleep(retries: i32, max_retries: i32, outcomes: Seq<AttemptOutcome>)
    requires
        retries <= max_retries,
        all_retryable_failures(outcomes),
        outcomes.len() >= max_retries - retries + 1,
    ensures
        retry_sleeps(retries, max_retries, outcomes) == max_retries - retries,
    decreases outcomes.len(),
{
    assert(outcomes[0] matches AttemptOutcome::Failed(code) && spec_is_retryable(code));
    if retries < max_retries {
        let rest = outcomes.drop_first();
        assert forall|i: int| 0 <= i < rest.len() implies (#[trigger] rest[i] matches AttemptOutcome::Failed(code) && spec_is_retryable(code)) by {
            assert(rest[i] == outcomes[i + 1]);
        }
        lemma_retryable_failures_sleep((retries + 1) as i32, max_retries, rest);
    }
}

/// The number of retries a fresh loop allows: `max_retries`, or none when it
/// is negative.
pub open spec fn allowed_retries(max_retries: i32) -> int {
    if max_retries < 0 { 0 } else { max_retries as int }
}

/// From a fresh start, when every attempt fails in a retryable way, the loop
/// makes exactly `allowed_retries(max_retries) + 1` attempts, sleeps between
/// them `allowed_retries(max_retries)` times, and returns the last failure.
pub proof fn lemma_retryable_failures_from_start(max_retries: i32, outcomes: Seq<AttemptOutcome>)
    requires
        all_retryable_failures(outcomes),
        outcomes.len() >= allowed_retries(max_retries) + 1,
    ensures
        run_retry_loop(0, max_retries, outcomes)
            == Some((RetryAction::ReturnLastFailure, (allowed_retries(max_retries) + 1) as nat)),
        retry_sleeps(0, max_retries, outcomes) == allowed_retries(max_retries),
{
    if max_retries >= 0 {
        lemma_retryable_failures_exhaust_retries(0, max_retries, outcomes);
        lemma_retryable_failures_sleep(0, max_retries, outcomes);
    } else {
        assert(outcomes[0] matches AttemptOutcome::Failed(code) && spec_is_retryable(code));
    }
}

/// With only retryable failures, a loop that has retried `retries` times
/// needs `max_retries - retries + 1` outcomes to come to an end: with fewer,
/// it is still retrying when they run out.
pub proof fn lemma_retryable_failures_need_every_attempt(retries: i32, max_retries: i32, outcomes: Seq<AttemptOutcome>)
    requires
        retries <= max_retries,
        all_retryable_failures(outcomes),
        outcomes.len() < max_retries - retries + 1,
    ensures
        run_retry_loop(retries, max_retries, outcomes) is None,
    decreases outcomes.len(),
{
    if outcomes.len() > 0 {
        assert(outcomes[0] matches AttemptOutcome::Failed(code) && spec_is_retryable(code));
        let rest = outcomes.drop_first();
        assert forall|i: int| 0 <= i < rest.len() implies (#[trigger] rest[i] matches AttemptOutcome::Failed(code) && spec_is_retryable(code)) by {
            assert(rest[i] == outcomes[i + 1]);
        }
        lemma_retryable_failures_need_every_attempt((retries + 1) as i32, max_retries, rest);
    }
}

/// Only a call that failed as unavailable or with an internal error is
/// retried: any other failure ends the loop at once with that failure, and a
/// success ends it with the result. A retryable failure is retried, with one
/// more retry counted, while retries are left, and otherwise ends the loop
/// with the last failure.
pub proof fn lemma_only_unavailable_and_internal_are_retried(retries: i32, max_retries: i32, code: StatusCode)
    ensures
        spec_is_retryable(code) <==> (code == StatusCode::Unavailable || code == StatusCode::Internal),
        spec_next_retry_action(retries, max_retries, AttemptOutcome::Succeeded) == RetryAction::ReturnSuccess,
        code != StatusCode::Unavailable && code != StatusCode::Internal
            ==> spec_next_retry_action(retries, max_retries, AttemptOutcome::Failed(code)) == RetryAction::ReturnFailure,
        (code == StatusCode::Unavailable || code == StatusCode::Internal) && retries < max_retries
            ==> spec_next_retry_action(retries, max_retries, AttemptOutcome::Failed(code))
                == (RetryAction::SleepThenRetry { retries: (retries + 1) as i32 }),
        (code == StatusCode::Unavailable || code == StatusCode::Internal) && retries >= max_retries
            ==> spec_next_retry_action(retries, max_retries, AttemptOutcome::Failed(code)) == RetryAction::ReturnLastFailure,
{
}

} // verus!
