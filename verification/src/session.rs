//! The connection handler: what becomes of a frame once it is read, and how
//! the life of one connection moves from frame to frame.
//!
//! A driver owns the connection. It reads a frame, asks `process` what the
//! frame is, has a command frame decoded and answered, writes the replies, and
//! reports each outcome to the session's state, which says whether to go on.

use crate::error::RootcanalError;
use crate::frame::message_type;
use crate::frame::spec_message_type;
use crate::frame::COMMAND;
use crate::frame::TERMINATION;
use vstd::prelude::*;

verus! {

/// What the message type of a frame decides: a command frame goes on to be
/// decoded, a termination request ends the session, a frame of any other type
/// is unsupported, and an empty frame is no packet at all.
pub open spec fn spec_process(frame: Seq<u8>) -> Result<(), RootcanalError> {
    if frame.len() == 0 {
        Err(RootcanalError::InvalidPacket)
    } else if spec_message_type(frame[0]) == COMMAND {
        Ok(())
    } else if spec_message_type(frame[0]) == TERMINATION {
        Err(RootcanalError::TerminateTask)
    } else {
        Err(RootcanalError::UnsupportedPacket)
    }
}

/// Classifies a frame by its message type, before anything else is read from
/// it.
///
/// `Ok` means that the frame is a command frame: the caller has it decoded and
/// answers what comes of that. Every other frame ends the session, and the
/// error says how; none of them is decoded or answered.
pub fn process(frame: &[u8]) -> (verdict: Result<(), RootcanalError>)
    ensures
        verdict == spec_process(frame@),
{
    match message_type(frame) {
        Err(e) => Err(e),
        Ok(kind) => {
            if kind == COMMAND {
                Ok(())
            } else if kind == TERMINATION {
                Err(RootcanalError::TerminateTask)
            } else {
                Err(RootcanalError::UnsupportedPacket)
            }
        },
    }
}

/// Where a connection stands.
#[derive(Clone, Copy, Debug, PartialEq, Eq, Structural)]
pub enum SessionState {
    /// Waiting for the next frame. A session starts here.
    Idle,
    /// A frame has been read and is being classified, answered and replied to.
    Processing,
    /// The session has ended gracefully.
    Terminated,
    /// The session has ended on a failure and the connection is torn down.
    Fatal,
}

/// What the driver of a session reports to it.
#[derive(Clone, Copy, Debug, PartialEq, Eq, Structural)]
pub enum SessionEvent {
    /// One whole frame was read.
    FrameRead,
    /// The frame in hand was a command, and every reply to it was written.
    Handled,
    /// Reading or handling a frame ended with this error.
    Stopped(RootcanalError),
}

impl SessionState {
    /// The state of a session whose connection was just accepted.
    pub fn new() -> (state: SessionState)
        ensures
            state == SessionState::Idle,
    {
        SessionState::Idle
    }

    /// The two states in which a session has ended.
    pub open spec fn spec_is_terminal(&self) -> bool {
        *self == SessionState::Terminated || *self == SessionState::Fatal
    }

    /// Whether the session has ended.
    #[verifier::when_used_as_spec(spec_is_terminal)]
    pub fn is_terminal(&self) -> (terminal: bool)
        ensures
            terminal == self.spec_is_terminal(),
    {
        match self {
            SessionState::Terminated => true,
            SessionState::Fatal => true,
            _ => false,
        }
    }

    /// The state in which an error leaves a session: ended gracefully by a
    /// termination request or a clean end of stream, torn down by anything
    /// else.
    pub open spec fn spec_stopped_by(error: RootcanalError) -> SessionState {
        if error.spec_is_graceful() {
            SessionState::Terminated
        } else {
            SessionState::Fatal
        }
    }

    /// The transitions of a session. A frame read takes an idle session into
    /// processing; a handled frame takes it back to idle; an error, while
    /// waiting for a frame or while processing one, ends it. No other pair of
    /// state and event is a transition, and an ended session has none.
    pub open spec fn spec_step(self, event: SessionEvent) -> Option<SessionState> {
        match (self, event) {
            (SessionState::Idle, SessionEvent::FrameRead) => Some(SessionState::Processing),
            (SessionState::Processing, SessionEvent::Handled) => Some(SessionState::Idle),
            (SessionState::Idle, SessionEvent::Stopped(error)) => Some(
                SessionState::spec_stopped_by(error),
            ),
            (SessionState::Processing, SessionEvent::Stopped(error)) => Some(
                SessionState::spec_stopped_by(error),
            ),
            _ => None,
        }
    }

    /// The state that follows `self` on `event`, or `None` where the event
    /// cannot occur in this state.
    pub fn step(self, event: SessionEvent) -> (next: Option<SessionState>)
        ensures
            next == self.spec_step(event),
    {
        match self {
            SessionState::Idle => match event {
                SessionEvent::FrameRead => Some(SessionState::Processing),
                SessionEvent::Handled => None,
                SessionEvent::Stopped(error) => Some(SessionState::stopped_by(error)),
            },
            SessionState::Processing => match event {
                SessionEvent::FrameRead => None,
                SessionEvent::Handled => Some(SessionState::Idle),
                SessionEvent::Stopped(error) => Some(SessionState::stopped_by(error)),
            },
            SessionState::Terminated => None,
            SessionState::Fatal => None,
        }
    }

    /// The terminal state in which `error` leaves a session.
    fn stopped_by(error: RootcanalError) -> (state: SessionState)
        ensures
            state == SessionState::spec_stopped_by(error),
    {
        if error.is_graceful() {
            SessionState::Terminated
        } else {
            SessionState::Fatal
        }
    }
}

/// A frame whose message type is the termination request ends the session
/// gracefully. It is not a command frame, so it is neither decoded nor
/// answered; the error it raises is no failure; and the session that was
/// processing it is terminated, not torn down.
pub proof fn lemma_termination_ends_session(frame: Seq<u8>)
    requires
        frame.len() > 0,
        spec_message_type(frame[0]) == TERMINATION,
    ensures
        spec_process(frame) == Err::<(), RootcanalError>(RootcanalError::TerminateTask),
        RootcanalError::TerminateTask.spec_is_graceful(),
        SessionState::Processing.spec_step(SessionEvent::Stopped(RootcanalError::TerminateTask))
            == Some(SessionState::Terminated),
{
}

/// An unsupported command tears the session down: the error is a failure, and
/// the session that was processing the command ends in the fatal state.
pub proof fn lemma_unsupported_command_is_fatal()
    ensures
        SessionState::Processing.spec_step(
            SessionEvent::Stopped(RootcanalError::UnsupportedCommand),
        ) == Some(SessionState::Fatal),
{
}

/// A session that has ended stays ended: no event leads out of a terminal
/// state, and every state that an error leads to is terminal.
pub proof fn lemma_terminal_states_are_final(state: SessionState, event: SessionEvent)
    ensures
        state.spec_is_terminal() ==> state.spec_step(event) is None,
        event is Stopped && state.spec_step(event) is Some ==> state.spec_step(
            event,
        )->Some_0.spec_is_terminal(),
{
}

} // verus!
