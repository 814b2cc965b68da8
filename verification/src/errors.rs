//! Error taxonomy and collection outcomes for device sessions.

use vstd::prelude::*;

verus! {

/// Everything that can go wrong inside one session. An error aborts only the
/// session that raised it; sibling sessions are unaffected.
#[derive(Clone, Copy, Debug, PartialEq, Eq, Structural)]
pub enum SessionError {
    /// `connect` was called on a session that is already connected.
    AlreadyConnected,
    /// An operation that needs a live connection found the session
    /// disconnected.
    NotConnected,
    /// `aggregate` was asked for the mean of an empty buffer.
    EmptyBuffer,
    /// A send was attempted on a channel that has no attached consumer or was
    /// closed: a configuration error, reported instead of hanging forever.
    ChannelClosedOrUnconsumed,
    /// An underlying unit of concurrent work aborted unexpectedly.
    TaskFailure,
}

/// How a collection window ended. Cancellation is a distinct outcome, not an
/// error: the partial buffer is preserved.
#[derive(Clone, Copy, Debug, PartialEq, Eq, Structural)]
pub enum CollectOutcome {
    /// The whole window elapsed.
    Completed,
    /// An external cancellation cut the window short.
    Cancelled,
}

impl SessionError {
    /// A short human-readable label for the error.
    pub fn describe(&self) -> (r: &'static str)
        ensures
            r@ =~= self.describe_spec(),
    {
        match self {
            SessionError::AlreadyConnected => "connection already established",
            SessionError::NotConnected => "device not connected",
            SessionError::EmptyBuffer => "no samples collected",
            SessionError::ChannelClosedOrUnconsumed => "channel closed or has no consumer",
            SessionError::TaskFailure => "concurrent task aborted",
        }
    }

    /// The label `describe` returns, as a specification-level sequence.
    pub open spec fn describe_spec(&self) -> Seq<char> {
        match self {
            SessionError::AlreadyConnected => "connection already established"@,
            SessionError::NotConnected => "device not connected"@,
            SessionError::EmptyBuffer => "no samples collected"@,
            SessionError::ChannelClosedOrUnconsumed => "channel closed or has no consumer"@,
            SessionError::TaskFailure => "concurrent task aborted"@,
        }
    }
}

} // verus!
