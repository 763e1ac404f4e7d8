//! The types that the surrounding application supplies.

use vstd::prelude::*;

verus! {

/// The family of types a channel is instantiated with. The channel stores
/// and hands back values of these types; it never looks inside them.
pub trait Host {
    /// Handle of the session that owns the association.
    type Transport;
    /// Callback for the moment the channel opens; runs once.
    type OnOpen;
    /// Callback for the end of the stream.
    type OnClose;
    /// Callback for an inbound message.
    type OnMessage;
    /// Callback for a failed read.
    type OnError;
    /// Callback for the buffered amount falling to the low threshold.
    type OnBufferedAmountLow;
}

} // verus!
