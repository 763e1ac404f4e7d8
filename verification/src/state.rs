//! The lifecycle states of a channel.

use vstd::prelude::*;

verus! {

/// Where a channel is in its life.
#[derive(Clone, Copy, Debug, PartialEq, Eq, Structural)]
pub enum DataChannelState {
    /// Created; no stream is attached yet.
    Connecting,
    /// A stream is attached and messages may be sent.
    Open,
    /// The application has asked for the channel to be closed.
    Closing,
    /// The stream has ended. Nothing follows.
    Closed,
}

impl DataChannelState {
    /// Position of the state in the order Connecting, Open, Closing, Closed.
    pub open spec fn rank(self) -> nat {
        match self {
            DataChannelState::Connecting => 0,
            DataChannelState::Open => 1,
            DataChannelState::Closing => 2,
            DataChannelState::Closed => 3,
        }
    }

    /// `next` is this state or a later one.
    pub open spec fn precedes(self, next: DataChannelState) -> bool {
        self.rank() <= next.rank()
    }
}

} // verus!
