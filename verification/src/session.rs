//! The session state machine.
//!
//! The indicator shows exactly one of these states at all times. Illegal transitions are
//! rejected rather than silently ignored.

use vstd::prelude::*;

verus! {

#[derive(Debug, Clone, PartialEq, Eq)]
pub enum SessionState {
    /// Nothing happening.
    Idle,
    /// The microphone is open.
    Recording,
    /// Audio captured, recognition running.
    Transcribing,
    /// Words are on the clipboard, and waiting for the user.
    Ready,
    /// Something failed. `message` is shown verbatim; the transcript is never cleared.
    Error { message: String },
}

#[derive(Debug, PartialEq, Eq)]
pub enum StateError {
    IllegalTransition { from: &'static str, to: &'static str },
}

impl StateError {
    /// The refusal, in words.
    pub fn message(&self) -> (r: String)
        ensures
            match self {
                StateError::IllegalTransition { from, to } => r@ == "cannot go from "@ + from@
                    + " to "@ + to@,
            },
    {
        match self {
            StateError::IllegalTransition { from, to } => {
                let mut m = String::new();
                crate::text::push_str(&mut m, "cannot go from ");
                crate::text::push_str(&mut m, from);
                crate::text::push_str(&mut m, " to ");
                crate::text::push_str(&mut m, to);
                m
            },
        }
    }
}

/// The state's name as the interface spells it.
pub open spec fn state_name(s: SessionState) -> Seq<char> {
    match s {
        SessionState::Idle => "idle"@,
        SessionState::Recording => "recording"@,
        SessionState::Transcribing => "transcribing"@,
        SessionState::Ready => "ready"@,
        SessionState::Error { .. } => "error"@,
    }
}

/// A resting state, from which the hotkey starts a new recording.
pub open spec fn resting(s: SessionState) -> bool {
    s is Idle || s is Ready || s is Error
}

/// The legal moves. Failure may arrive from anywhere; every other move is constrained.
pub open spec fn allowed(from: SessionState, to: SessionState) -> bool {
    ||| to is Error
    ||| to is Recording && resting(from)
    ||| from is Recording && to is Transcribing
    ||| from is Transcribing && to is Ready
    ||| to is Idle && (from is Ready || from is Error || from is Recording || from is Idle)
}

impl SessionState {
    pub fn name(&self) -> (r: &'static str)
        ensures
            r@ == state_name(*self),
    {
        match self {
            SessionState::Idle => "idle",
            SessionState::Recording => "recording",
            SessionState::Transcribing => "transcribing",
            SessionState::Ready => "ready",
            SessionState::Error { .. } => "error",
        }
    }

    /// True while the microphone is open.
    pub fn is_capturing(&self) -> (r: bool)
        ensures
            r == (*self is Recording),
    {
        matches!(self, SessionState::Recording)
    }

    /// True when the hotkey should start a new recording rather than stop one.
    pub fn accepts_start(&self) -> (r: bool)
        ensures
            r == resting(*self),
    {
        matches!(self, SessionState::Idle | SessionState::Ready | SessionState::Error { .. })
    }

    /// Attempt a transition, rejecting the ones that make no sense.
    pub fn transition_to(&self, next: SessionState) -> (r: Result<SessionState, StateError>)
        ensures
            allowed(*self, next) ==> r == Ok::<SessionState, StateError>(next),
            !allowed(*self, next) ==> (r matches Err(StateError::IllegalTransition { from, to })
                && from@ == state_name(*self) && to@ == state_name(next)),
    {
        let ok = match (self, &next) {
            (_, SessionState::Error { .. }) => true,
            (s, SessionState::Recording) => s.accepts_start(),
            (SessionState::Recording, SessionState::Transcribing) => true,
            (SessionState::Transcribing, SessionState::Ready) => true,
            (SessionState::Ready, SessionState::Idle)
            | (SessionState::Error { .. }, SessionState::Idle)
            | (SessionState::Recording, SessionState::Idle)
            | (SessionState::Idle, SessionState::Idle) => true,
            _ => false,
        };
        if ok {
            Ok(next)
        } else {
            let from = self.name();
            let to = next.name();
            Err(StateError::IllegalTransition { from, to })
        }
    }
}

impl Default for SessionState {
    fn default() -> (s: Self)
        ensures
            s is Idle,
    {
        SessionState::Idle
    }
}

/// A failure can be entered from every state, whatever its message.
pub proof fn law_error_reachable_from_every_state(from: SessionState, message: String)
    ensures
        allowed(from, SessionState::Error { message }),
{
}

/// The happy path: idle, recording, transcribing, ready.
pub proof fn law_happy_path()
    ensures
        allowed(SessionState::Idle, SessionState::Recording),
        allowed(SessionState::Recording, SessionState::Transcribing),
        allowed(SessionState::Transcribing, SessionState::Ready),
{
}

/// Transcription is reached only from recording, and ready only from transcription.
pub proof fn law_no_shortcuts(from: SessionState)
    ensures
        allowed(from, SessionState::Transcribing) ==> from is Recording,
        allowed(from, SessionState::Ready) ==> from is Transcribing,
{
}

/// The hotkey starts a recording exactly from the resting states: never a second capture
/// while one runs or while recognition is under way.
pub proof fn law_start_only_when_resting(from: SessionState)
    ensures
        allowed(from, SessionState::Recording) <==> resting(from),
        !resting(SessionState::Recording),
        !resting(SessionState::Transcribing),
{
}

/// The box can be dismissed, back to idle, from every state but transcription: an idle or
/// finished session, a failure, and a recording (which is abandoned). Only recognition under
/// way cannot be walked away from.
pub proof fn law_dismiss_allowed_except_while_transcribing(from: SessionState)
    ensures
        allowed(from, SessionState::Idle) <==> !(from is Transcribing),
        allowed(SessionState::Recording, SessionState::Idle),
{
}

} // verus!
