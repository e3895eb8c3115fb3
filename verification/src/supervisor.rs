use vstd::prelude::*;

use crate::session::Outcome;

verus! {

/// How long the supervisor sleeps between session attempts, in
/// milliseconds. Fixed: no cap on attempts, no growing backoff, no jitter.
pub const RECONNECT_INTERVAL_MILLIS: u64 = 5000;

/// How long one read may wait for a frame before the session ends with a
/// read timeout, in milliseconds.
pub const READ_TIMEOUT_MILLIS: u64 = 60000;

/// What the supervisor does after a session ends: stop listening for good,
/// or sleep and open a new session.
#[derive(Clone, Copy, Debug, PartialEq, Eq, Structural)]
pub enum SupervisorAction {
    Stop,
    RetryAfterMillis(u64),
}

/// The retry policy: only a clean stop ends listening; every failure, of
/// any kind, is retried after the fixed interval.
pub open spec fn next_action_spec(outcome: Outcome) -> SupervisorAction {
    match outcome {
        Outcome::CleanStop => SupervisorAction::Stop,
        Outcome::Retryable(_) => SupervisorAction::RetryAfterMillis(RECONNECT_INTERVAL_MILLIS),
    }
}

/// Decide what follows a finished session.
pub fn next_action(outcome: Outcome) -> (r: SupervisorAction)
    ensures
        r == next_action_spec(outcome),
{
    match outcome {
        Outcome::CleanStop => SupervisorAction::Stop,
        Outcome::Retryable(_) => SupervisorAction::RetryAfterMillis(RECONNECT_INTERVAL_MILLIS),
    }
}

/// Listening ends exactly on a clean stop; a failure of any kind is
/// followed by a retry after the fixed reconnect interval.
pub proof fn lemma_only_clean_stop_ends_listening(outcome: Outcome)
    ensures
        next_action_spec(outcome) == SupervisorAction::Stop <==> outcome == Outcome::CleanStop,
        outcome is Retryable ==> next_action_spec(outcome) == SupervisorAction::RetryAfterMillis(
            RECONNECT_INTERVAL_MILLIS,
        ),
{
}

} // verus!
