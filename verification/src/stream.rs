//! The transport's stream as the channel sees it.
//!
//! A stream is shared with the transport, which changes it behind the
//! channel's back. Nothing is therefore claimed about what its accessors
//! return.

use vstd::prelude::*;

verus! {

/// `webrtc_data::data_channel::DataChannel`, one multiplexed stream of an
/// association. Opaque: the channel passes it on and calls its accessors.
#[verifier::external_type_specification]
#[verifier::external_body]
pub struct ExStream(webrtc_data::data_channel::DataChannel);

/// `anyhow::Error`, the cause of a failed stream operation. Opaque.
#[verifier::external_type_specification]
#[verifier::external_body]
pub struct ExCause(anyhow::Error);

/// The stream type that a channel attaches to.
pub type Stream = webrtc_data::data_channel::DataChannel;

/// `DataChannel::buffered_amount` loads a counter that the transport
/// updates as data is queued and released: any value may come back.
pub assume_specification[ webrtc_data::data_channel::DataChannel::buffered_amount ](
    stream: &webrtc_data::data_channel::DataChannel,
) -> (amount: usize)
;

/// `DataChannel::buffered_amount_low_threshold` loads the threshold that
/// the stream currently holds: any value may come back.
pub assume_specification[ webrtc_data::data_channel::DataChannel::buffered_amount_low_threshold ](
    stream: &webrtc_data::data_channel::DataChannel,
) -> (threshold: usize)
;

/// `DataChannel::set_buffered_amount_low_threshold` stores the threshold in
/// the stream. It returns nothing and does not fail. What the stream holds
/// afterwards is the stream's affair: the channel's results say what it
/// handed over.
pub assume_specification[ webrtc_data::data_channel::DataChannel::set_buffered_amount_low_threshold ](
    stream: &webrtc_data::data_channel::DataChannel,
    threshold: usize,
)
;

/// The amount a channel reports as queued for sending, given what its
/// stream reports: the stream's figure where there is a stream, and zero
/// where there is none.
pub open spec fn spec_queued_amount(reported: Option<usize>) -> usize {
    match reported {
        Some(amount) => amount,
        None => 0,
    }
}

/// The amount a channel reports as queued for sending. `reported` is what
/// the stream says, or `None` for a channel without a stream.
pub fn queued_amount(reported: Option<usize>) -> (amount: usize)
    ensures
        amount == spec_queued_amount(reported),
{
    match reported {
        Some(amount) => amount,
        None => 0,
    }
}

/// Whether a cause is the SCTP layer's report that the stream is closed.
/// What a cause wraps is not visible here, so the answer goes by this name.
pub uninterp spec fn cause_is_stream_closed(cause: anyhow::Error) -> bool;

/// `Error::equal` of the SCTP layer, asked of its `ErrStreamClosed`: it
/// looks for an SCTP error inside `cause` and compares it with
/// `ErrStreamClosed`. The answer depends on the cause alone.
#[verifier::external_body]
pub(crate) fn is_stream_closed(cause: &anyhow::Error) -> (closed: bool)
    ensures
        closed == cause_is_stream_closed(*cause),
{
    webrtc_sctp::error::Error::ErrStreamClosed.equal(cause)
}

} // verus!
