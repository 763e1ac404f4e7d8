//! From the reliability an application asks for to the channel type and
//! reliability parameter that the transport understands.

use vstd::prelude::*;

verus! {

/// Delivery guarantees of a channel, as the transport encodes them.
#[derive(Clone, Copy, Debug, PartialEq, Eq, Structural)]
pub enum ChannelType {
    /// Reliable, in order.
    Reliable,
    /// Reliable, in any order.
    ReliableUnordered,
    /// In order; a message is retransmitted at most a given number of times.
    PartialReliableRexmit,
    /// In any order; a message is retransmitted at most a given number of times.
    PartialReliableRexmitUnordered,
    /// In order; a message is given up after a time window in milliseconds.
    PartialReliableTimed,
    /// In any order; a message is given up after a time window in milliseconds.
    PartialReliableTimedUnordered,
}

/// What the transport is told about a channel's reliability.
#[derive(Clone, Copy, Debug, PartialEq, Eq, Structural)]
pub struct Reliability {
    pub channel_type: ChannelType,
    pub reliability_parameter: u32,
}

/// The channel type for the given ordering and reliability caps.
///
/// Both caps zero means fully reliable. A retransmit cap takes precedence
/// over a lifetime cap.
pub open spec fn spec_channel_type(
    ordered: bool,
    max_packet_lifetime: u16,
    max_retransmits: u16,
) -> ChannelType {
    if max_packet_lifetime == 0 && max_retransmits == 0 {
        if ordered {
            ChannelType::Reliable
        } else {
            ChannelType::ReliableUnordered
        }
    } else if max_retransmits != 0 {
        if ordered {
            ChannelType::PartialReliableRexmit
        } else {
            ChannelType::PartialReliableRexmitUnordered
        }
    } else {
        if ordered {
            ChannelType::PartialReliableTimed
        } else {
            ChannelType::PartialReliableTimedUnordered
        }
    }
}

/// The reliability parameter for the given caps: the retransmit cap if there
/// is one, else the lifetime cap, else zero.
pub open spec fn spec_reliability_parameter(max_packet_lifetime: u16, max_retransmits: u16) -> int {
    if max_retransmits != 0 {
        max_retransmits as int
    } else {
        max_packet_lifetime as int
    }
}

/// The pair that `negotiate` computes.
pub open spec fn spec_negotiate(
    ordered: bool,
    max_packet_lifetime: u16,
    max_retransmits: u16,
) -> Reliability {
    Reliability {
        channel_type: spec_channel_type(ordered, max_packet_lifetime, max_retransmits),
        reliability_parameter: spec_reliability_parameter(
            max_packet_lifetime,
            max_retransmits,
        ) as u32,
    }
}

/// Maps the ordering flag and the two reliability caps to the channel type
/// and reliability parameter handed to the transport. Total: every
/// combination of inputs has an answer.
pub fn negotiate(ordered: bool, max_packet_lifetime: u16, max_retransmits: u16) -> (r: Reliability)
    ensures
        r == spec_negotiate(ordered, max_packet_lifetime, max_retransmits),
{
    if max_packet_lifetime == 0 && max_retransmits == 0 {
        Reliability {
            channel_type: if ordered {
                ChannelType::Reliable
            } else {
                ChannelType::ReliableUnordered
            },
            reliability_parameter: 0,
        }
    } else if max_retransmits != 0 {
        Reliability {
            channel_type: if ordered {
                ChannelType::PartialReliableRexmit
            } else {
                ChannelType::PartialReliableRexmitUnordered
            },
            reliability_parameter: max_retransmits as u32,
        }
    } else {
        Reliability {
            channel_type: if ordered {
                ChannelType::PartialReliableTimed
            } else {
                ChannelType::PartialReliableTimedUnordered
            },
            reliability_parameter: max_packet_lifetime as u32,
        }
    }
}

} // verus!

verus! {

/// The priority every channel is dialled with.
pub const CHANNEL_PRIORITY_NORMAL: u16 = 256;

/// How the stream for a channel is to be set up.
pub struct Config {
    pub channel_type: ChannelType,
    pub negotiated: bool,
    pub priority: u16,
    pub reliability_parameter: u32,
    pub label: String,
    pub protocol: String,
}

} // verus!
