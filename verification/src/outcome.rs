//! The shared vocabulary every push backend reports its results in.

use vstd::prelude::*;

verus! {

/// What became of one attempt to deliver a push notification.
#[derive(Clone, Copy, Debug, PartialEq, Eq, Structural)]
pub enum PushOutcome {
    /// The provider accepted the notification.
    Delivered,
    /// The device is no longer registered: stop sending to this token.
    TokenBlocked,
    /// The provider refused the request; a retry will not succeed.
    PermanentFailure,
    /// The provider or the network failed; a later retry may succeed.
    TransientFailure,
    /// The backend could not be constructed from its configuration.
    InitFailure,
    /// No backend is registered under the selector of the intent.
    UnknownBackend,
    /// The provider answered with a status code that has no meaning here.
    Unknown(u16),
}

/// The outcome that a provider status code stands for.
pub open spec fn outcome_of_code(code: u16) -> PushOutcome {
    if code == 200 {
        PushOutcome::Delivered
    } else if code == 404 {
        PushOutcome::TokenBlocked
    } else if code == 400 {
        PushOutcome::PermanentFailure
    } else if code == 500 {
        PushOutcome::TransientFailure
    } else {
        PushOutcome::Unknown(code)
    }
}

/// Maps the status code of a provider response to its outcome.
pub fn map_acrobits_response_to_error(code: u16) -> (outcome: PushOutcome)
    ensures
        outcome == outcome_of_code(code),
{
    match code {
        200 => PushOutcome::Delivered,
        404 => PushOutcome::TokenBlocked,
        400 => PushOutcome::PermanentFailure,
        500 => PushOutcome::TransientFailure,
        other => PushOutcome::Unknown(other),
    }
}

impl PushOutcome {
    /// Whether the notification reached the provider.
    pub fn is_delivered(&self) -> (delivered: bool)
        ensures
            delivered == (*self == PushOutcome::Delivered),
    {
        matches!(self, PushOutcome::Delivered)
    }

    /// Whether an attempt that ended so may succeed when it is repeated.
    /// Only a transient failure may: an unknown status is not retried.
    pub fn is_retryable(&self) -> (retryable: bool)
        ensures
            retryable == (*self == PushOutcome::TransientFailure),
    {
        matches!(self, PushOutcome::TransientFailure)
    }

    /// Whether the outcome says that the token is dead, so that nothing
    /// more should be sent to it.
    pub fn blocks_token(&self) -> (blocked: bool)
        ensures
            blocked == (*self == PushOutcome::TokenBlocked),
    {
        matches!(self, PushOutcome::TokenBlocked)
    }
}

/// Every status code has exactly one outcome: four codes have an outcome of
/// their own, and every other code is handed on as it came.
pub proof fn lemma_outcome_of_code_is_total(code: u16)
    ensures
        outcome_of_code(code) == PushOutcome::Delivered <==> code == 200,
        outcome_of_code(code) == PushOutcome::TokenBlocked <==> code == 404,
        outcome_of_code(code) == PushOutcome::PermanentFailure <==> code == 400,
        outcome_of_code(code) == PushOutcome::TransientFailure <==> code == 500,
        outcome_of_code(code) is Unknown <==> code != 200 && code != 404 && code != 400 && code
            != 500,
        outcome_of_code(code) is Unknown ==> outcome_of_code(code) == PushOutcome::Unknown(code),
        outcome_of_code(code) != PushOutcome::InitFailure,
        outcome_of_code(code) != PushOutcome::UnknownBackend,
{
}

} // verus!
