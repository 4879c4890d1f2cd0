//! The errors that recording can end in.

use vstd::prelude::*;

verus! {

/// Why an operation of the recorder was refused or failed.
#[derive(Clone, Copy, Debug, PartialEq, Eq)]
pub enum RecorderError {
    /// Width, height or frame rate is outside the range the codec takes.
    ConfigError,
    /// The video codec is not available on this machine.
    CodecUnavailable,
    /// The output could not be opened or written.
    IoError,
    /// A frame's buffer does not hold exactly the bytes its dimensions call for.
    FrameSizeMismatch { expected: u128, actual: usize },
    /// The frame channel has no consumer or no producer left.
    ChannelClosed,
    /// The capture source went away.
    SourceDisconnected,
    /// The codec refused a frame or the end-of-stream signal, or failed to
    /// hand out a packet.
    SubmissionFailed,
    /// The call is not valid in the component's current state.
    InvalidState,
}

impl RecorderError {
    /// Whether the error ends the session, as opposed to being one of the
    /// two ordinary ways in which input runs out.
    pub open spec fn fatal(self) -> bool {
        !(self is ChannelClosed || self is SourceDisconnected)
    }

    /// Whether the error ends the session.
    pub fn is_fatal(&self) -> (fatal: bool)
        ensures
            fatal == self.fatal(),
    {
        match self {
            RecorderError::ChannelClosed => false,
            RecorderError::SourceDisconnected => false,
            _ => true,
        }
    }
}

} // verus!
