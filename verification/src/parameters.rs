//! What a channel is created from.

use vstd::prelude::*;

verus! {

/// The configuration of a channel, fixed at its creation.
pub struct DataChannelParameters {
    /// Name by which the application tells its channels apart.
    pub label: String,
    /// Name of the sub-protocol spoken on the channel.
    pub protocol: String,
    /// Identifier agreed beforehand, or zero to have one allocated.
    pub id: u16,
    /// Whether messages arrive in the order sent.
    pub ordered: bool,
    /// Milliseconds during which a message may be retransmitted; zero for no limit.
    pub max_packet_lifetime: u16,
    /// Number of retransmissions of a message; zero for no limit.
    pub max_retransmits: u16,
    /// Whether both peers agreed on the identifier out of band.
    pub negotiated: bool,
}

} // verus!
