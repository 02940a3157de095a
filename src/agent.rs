use vstd::prelude::*;

use crate::types::ResponseToPasskey;

verus! {

/// What a pairing agent waiting on the user's answer about a passkey hears next.
#[derive(Clone, Copy, Debug, PartialEq, Eq, Structural)]
pub enum PasskeyEvent {
    /// The user answered.
    Reply(ResponseToPasskey),
    /// The answer channel was closed without an answer.
    ChannelClosed,
    /// No answer came within the wait.
    TimedOut,
    /// The pairing request was cancelled by the other side.
    Cancelled,
}

/// What the agent does about it.
#[derive(Clone, Copy, Debug, PartialEq, Eq, Structural)]
pub enum PasskeyStep {
    /// Withdraw the passkey from the user and accept the pairing.
    Accept,
    /// Withdraw the passkey from the user and reject the pairing.
    Reject,
    /// Withdraw the passkey from the user and cancel the pairing.
    Cancel,
    /// Keep waiting for an answer.
    Wait,
}

pub open spec fn passkey_step_of(e: PasskeyEvent) -> PasskeyStep {
    match e {
        PasskeyEvent::Reply(ResponseToPasskey::Yes) => PasskeyStep::Accept,
        PasskeyEvent::Reply(ResponseToPasskey::No) => PasskeyStep::Reject,
        PasskeyEvent::Reply(ResponseToPasskey::Cancel) => PasskeyStep::Cancel,
        PasskeyEvent::Reply(ResponseToPasskey::Waiting) => PasskeyStep::Wait,
        PasskeyEvent::ChannelClosed => PasskeyStep::Wait,
        PasskeyEvent::TimedOut => PasskeyStep::Cancel,
        PasskeyEvent::Cancelled => PasskeyStep::Cancel,
    }
}

/// Decides a pairing agent's next step while a passkey is shown or awaits
/// confirmation: `Yes` accepts, `No` rejects, `Cancel`, a timeout or a
/// cancelled request cancel, and `Waiting` or a closed channel keep waiting.
pub fn passkey_step(e: PasskeyEvent) -> (s: PasskeyStep)
    ensures
        s == passkey_step_of(e),
{
    match e {
        PasskeyEvent::Reply(r) => match r {
            ResponseToPasskey::Yes => PasskeyStep::Accept,
            ResponseToPasskey::No => PasskeyStep::Reject,
            ResponseToPasskey::Cancel => PasskeyStep::Cancel,
            ResponseToPasskey::Waiting => PasskeyStep::Wait,
        },
        PasskeyEvent::ChannelClosed => PasskeyStep::Wait,
        PasskeyEvent::TimedOut => PasskeyStep::Cancel,
        PasskeyEvent::Cancelled => PasskeyStep::Cancel,
    }
}

} // verus!
