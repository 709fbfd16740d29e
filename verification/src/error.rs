//! The ways in which handling a frame can end without a reply.

use vstd::prelude::*;

verus! {

/// Why a read from, or a write to, the transport did not complete.
#[derive(Clone, Copy, Debug, PartialEq, Eq, Structural)]
pub enum IoFailure {
    /// The stream ended exactly at a frame boundary: the peer closed it cleanly.
    EndOfStream,
    /// The stream ended inside a frame, after some but not all of its bytes.
    Truncated,
    /// The transport reported any other failure.
    Transport,
}

/// The reasons for which a session stops handling frames.
#[derive(Clone, Copy, Debug, PartialEq, Eq, Structural)]
pub enum RootcanalError {
    /// The peer asked for the session to end.
    TerminateTask,
    /// The transport failed, or ended.
    IoError(IoFailure),
    /// The command decoded, but no reply is defined for its kind.
    UnsupportedCommand,
    /// The frame did not decode into a command packet.
    InvalidPacket,
    /// The frame is neither a command nor a termination request.
    UnsupportedPacket,
}

impl RootcanalError {
    /// A graceful end is a termination request or a clean end of stream. Every
    /// other value is a failure of the connection.
    pub open spec fn spec_is_graceful(&self) -> bool {
        *self == RootcanalError::TerminateTask || *self == RootcanalError::IoError(
            IoFailure::EndOfStream,
        )
    }

    /// Whether this value ends the session without being a failure.
    #[verifier::when_used_as_spec(spec_is_graceful)]
    pub fn is_graceful(&self) -> (graceful: bool)
        ensures
            graceful == self.spec_is_graceful(),
    {
        match self {
            RootcanalError::TerminateTask => true,
            RootcanalError::IoError(IoFailure::EndOfStream) => true,
            _ => false,
        }
    }
}

} // verus!
