//! The failures that the channel itself reports.

use vstd::prelude::*;
use vstd::string::StringExecFns;

verus! {

/// A precondition of an operation that did not hold. Each is returned to
/// the caller at once and never retried.
#[derive(Clone, Copy, Debug, PartialEq, Eq, Structural)]
pub enum ChannelError {
    /// The session has no active association to open a stream on.
    ErrSCTPNotEstablished,
    /// A message was sent on a channel that is not open.
    ErrClosedPipe,
    /// The stream was asked for although detaching is not configured.
    ErrDetachNotEnabled,
    /// The stream was asked for before the channel had one.
    ErrDetachBeforeOpened,
}

impl ChannelError {
    /// The text that describes this failure.
    pub open spec fn spec_message(self) -> Seq<char> {
        match self {
            ChannelError::ErrSCTPNotEstablished => "SCTP not established"@,
            ChannelError::ErrClosedPipe => "io: read/write on closed pipe"@,
            ChannelError::ErrDetachNotEnabled =>
                "enable detaching by calling webrtc.DetachDataChannels()"@,
            ChannelError::ErrDetachBeforeOpened =>
                "datachannel not opened yet, try calling Detach from OnOpen"@,
        }
    }

    /// A human-readable description of this failure.
    pub fn message(&self) -> (s: String)
        ensures
            s@ == self.spec_message(),
    {
        match self {
            ChannelError::ErrSCTPNotEstablished => String::from_str("SCTP not established"),
            ChannelError::ErrClosedPipe => String::from_str("io: read/write on closed pipe"),
            ChannelError::ErrDetachNotEnabled => String::from_str(
                "enable detaching by calling webrtc.DetachDataChannels()",
            ),
            ChannelError::ErrDetachBeforeOpened => String::from_str(
                "datachannel not opened yet, try calling Detach from OnOpen",
            ),
        }
    }
}

} // verus!
