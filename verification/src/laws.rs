//! What holds of a channel over its whole life.
//!
//! Each law is stated over `ChannelModel`, the view in which the contracts
//! of the channel's operations are written, so it holds of every channel
//! that is driven through those operations.

use crate::actions::Notification;
use crate::host::Host;
use crate::model::{closing_notifications, ChannelModel};
use crate::parameters::DataChannelParameters;
use crate::reliability::{spec_negotiate, ChannelType, Reliability};
use crate::stream::Stream;
use std::sync::Arc;
use vstd::prelude::*;

verus! {

/// An operation that can change a channel, with its inputs.
pub enum Operation<H: Host> {
    Open { transport: H::Transport, association_present: bool },
    AssignId { id: u16 },
    ConfigureStream,
    HandleOpen { stream: Arc<Stream> },
    OnOpen(H::OnOpen),
    OnClose(H::OnClose),
    OnMessage(H::OnMessage),
    OnError(H::OnError),
    OnBufferedAmountLow(H::OnBufferedAmountLow),
    /// The close slot was borrowed and left holding this.
    CloseSlot(Option<H::OnClose>),
    /// The message slot was borrowed and left holding this.
    MessageSlot(Option<H::OnMessage>),
    /// The error slot was borrowed and left holding this.
    ErrorSlot(Option<H::OnError>),
    Close,
    Detach,
    SetBufferedAmountLowThreshold { threshold: usize },
    ReadFailure,
}

/// The channel after `op`.
pub open spec fn apply<H: Host>(m: ChannelModel<H>, op: Operation<H>) -> ChannelModel<H> {
    match op {
        Operation::Open { transport, association_present } => m.open(
            transport,
            association_present,
        ),
        Operation::AssignId { id } => m.assign_id(id),
        Operation::ConfigureStream => m.configure_stream(),
        Operation::HandleOpen { stream } => m.handle_open(stream),
        Operation::OnOpen(f) => m.on_open(f),
        Operation::OnClose(f) => m.on_close(f),
        Operation::OnMessage(f) => m.on_message(f),
        Operation::OnError(f) => m.on_error(f),
        Operation::OnBufferedAmountLow(f) => m.on_buffered_amount_low(f),
        Operation::CloseSlot(held) => ChannelModel { on_close: held, ..m },
        Operation::MessageSlot(held) => ChannelModel { on_message: held, ..m },
        Operation::ErrorSlot(held) => ChannelModel { on_error: held, ..m },
        Operation::Close => m.close(),
        Operation::Detach => m.detach(),
        Operation::SetBufferedAmountLowThreshold { threshold } =>
            m.set_buffered_amount_low_threshold(threshold),
        Operation::ReadFailure => m.handle_read_failure(),
    }
}

/// With at most one cap set, the negotiated pair is: reliable with
/// parameter zero when no cap is set; limited by retransmissions, with the
/// retransmit cap as parameter, when that cap is set; limited by time, with
/// the lifetime cap as parameter, when that cap is set. The ordering flag
/// picks the ordered or the unordered type of each kind.
pub proof fn negotiation_table(ordered: bool, max_packet_lifetime: u16, max_retransmits: u16)
    requires
        max_packet_lifetime == 0 || max_retransmits == 0,
    ensures
        max_packet_lifetime == 0 && max_retransmits == 0 && ordered ==> spec_negotiate(
            ordered,
            max_packet_lifetime,
            max_retransmits,
        ) == (Reliability { channel_type: ChannelType::Reliable, reliability_parameter: 0 }),
        max_packet_lifetime == 0 && max_retransmits == 0 && !ordered ==> spec_negotiate(
            ordered,
            max_packet_lifetime,
            max_retransmits,
        ) == (Reliability { channel_type: ChannelType::ReliableUnordered, reliability_parameter: 0 }),
        max_retransmits != 0 && ordered ==> spec_negotiate(
            ordered,
            max_packet_lifetime,
            max_retransmits,
        ) == (Reliability {
            channel_type: ChannelType::PartialReliableRexmit,
            reliability_parameter: max_retransmits as u32,
        }),
        max_retransmits != 0 && !ordered ==> spec_negotiate(
            ordered,
            max_packet_lifetime,
            max_retransmits,
        ) == (Reliability {
            channel_type: ChannelType::PartialReliableRexmitUnordered,
            reliability_parameter: max_retransmits as u32,
        }),
        max_packet_lifetime != 0 && ordered ==> spec_negotiate(
            ordered,
            max_packet_lifetime,
            max_retransmits,
        ) == (Reliability {
            channel_type: ChannelType::PartialReliableTimed,
            reliability_parameter: max_packet_lifetime as u32,
        }),
        max_packet_lifetime != 0 && !ordered ==> spec_negotiate(
            ordered,
            max_packet_lifetime,
            max_retransmits,
        ) == (Reliability {
            channel_type: ChannelType::PartialReliableTimedUnordered,
            reliability_parameter: max_packet_lifetime as u32,
        }),
{
}

/// A new channel is well formed.
pub proof fn new_channel_is_well_formed<H: Host>(
    params: DataChannelParameters,
    detach_data_channels: bool,
    created_at: u128,
)
    ensures
        ChannelModel::<H>::initial(params, detach_data_channels, created_at).wf(),
{
}

/// Every operation keeps a well-formed channel well formed.
pub proof fn well_formedness_is_kept<H: Host>(m: ChannelModel<H>, op: Operation<H>)
    requires
        m.wf(),
    ensures
        apply(m, op).wf(),
{
}

/// An identifier, once assigned, never changes.
pub proof fn identifier_is_written_once<H: Host>(m: ChannelModel<H>, op: Operation<H>)
    requires
        m.id != 0,
    ensures
        apply(m, op).id == m.id,
{
}

/// The transport and the stream, once set, are never replaced nor cleared.
pub proof fn references_are_set_once<H: Host>(m: ChannelModel<H>, op: Operation<H>)
    ensures
        m.transport is Some ==> apply(m, op).transport == m.transport,
        m.stream is Some ==> apply(m, op).stream == m.stream,
{
}

/// The state never moves backward in the order Connecting, Open, Closing,
/// Closed. A read failure is the one step that skips states on the way.
pub proof fn state_moves_forward<H: Host>(m: ChannelModel<H>, op: Operation<H>)
    requires
        m.wf(),
    ensures
        m.ready_state.precedes(apply(m, op).ready_state),
{
}

/// A closed channel stays closed, and nothing can be sent on it.
pub proof fn closed_is_final<H: Host>(m: ChannelModel<H>, op: Operation<H>)
    requires
        m.wf(),
        m.ready_state is Closed,
    ensures
        apply(m, op).ready_state is Closed,
        !apply(m, op).can_send(),
{
}

/// A channel with a stream is in exactly one mode for as long as it is not
/// closed: its read loop runs, or the application has the stream to
/// itself. A channel that was detached has no read loop.
pub proof fn one_mode_for_life<H: Host>(m: ChannelModel<H>)
    requires
        m.wf(),
    ensures
        m.stream is Some && !(m.ready_state is Closed) ==> (m.read_loop_running
            <==> !m.detach_data_channels),
        m.detach_called ==> !m.read_loop_running,
        m.read_loop_running ==> m.stream is Some,
{
}

/// Opening twice is opening once: after a first `open` that took the
/// transport, a second `open` changes nothing, whatever it is given, before
/// and after the stream is attached. By the contract of `open` it answers
/// that nothing is to be done, so no second dial is asked for.
pub proof fn open_is_idempotent<H: Host>(
    m: ChannelModel<H>,
    first: H::Transport,
    second: H::Transport,
    association_present: bool,
    stream: Arc<Stream>,
)
    requires
        m.transport is None,
    ensures
        m.open(first, true).transport == Some(first),
        m.open(first, true).open(second, association_present) == m.open(first, true),
        m.open(first, true).handle_open(stream).open(second, association_present) == m.open(
            first,
            true,
        ).handle_open(stream),
        m.open(first, true).handle_open(stream).open(second, association_present).stream
            == m.open(first, true).handle_open(stream).stream,
{
}

/// A message can be sent exactly while the channel is open: not on a new
/// channel, not while the handshake is pending, from the moment the stream
/// is attached, and no longer once closing was asked for or the stream
/// has ended.
pub proof fn sending_follows_the_lifecycle<H: Host>(
    params: DataChannelParameters,
    detach_data_channels: bool,
    created_at: u128,
    transport: H::Transport,
    stream: Arc<Stream>,
)
    ensures
        ({
            let created = ChannelModel::<H>::initial(params, detach_data_channels, created_at);
            let pending = created.open(transport, true);
            let opened = pending.handle_open(stream);
            &&& !created.can_send()
            &&& !pending.can_send()
            &&& opened.can_send()
            &&& !opened.close().can_send()
            &&& !detach_data_channels ==> !opened.handle_read_failure().can_send()
        }),
{
}

/// An open callback registered on an open channel is not stored: the slot
/// keeps what it held, so the callback that `on_open` hands back to be run
/// is run by no later event. And the attaching of the first stream
/// empties the slot, whatever the state, so a callback stored before is
/// run by that event only. A connecting channel is open by then.
pub proof fn open_callback_runs_once<H: Host>(m: ChannelModel<H>, f: H::OnOpen, stream: Arc<Stream>)
    ensures
        m.ready_state is Open ==> m.on_open(f) == m,
        m.stream is None ==> m.handle_open(stream).on_open is None,
        m.opens_on_attach() ==> m.handle_open(stream).ready_state is Open,
{
}

/// A channel that was asked to close before it had a stream does not open
/// when the stream arrives: it stays closing and refuses messages.
pub proof fn closing_channel_does_not_open<H: Host>(m: ChannelModel<H>, stream: Arc<Stream>)
    requires
        m.ready_state is Closing,
    ensures
        m.handle_open(stream).ready_state is Closing,
        !m.handle_open(stream).can_send(),
{
}

/// A failed read that is not the stream's report of being closed ends a
/// running read loop with exactly one error callback followed by exactly
/// one close callback, and the channel is closed by then. When the stream
/// was closed, the close callback alone runs. The loop does not start
/// again: a later failure names no callback.
pub proof fn read_failure_notifies_once<H: Host>(m: ChannelModel<H>)
    requires
        m.read_loop_running,
    ensures
        m.handle_read_failure().ready_state is Closed,
        !m.handle_read_failure().read_loop_running,
        closing_notifications(true, false) =~= seq![Notification::Error, Notification::Close],
        closing_notifications(true, true) =~= seq![Notification::Close],
        closing_notifications(m.handle_read_failure().read_loop_running, false).len() == 0,
{
}

/// Where the application takes the stream over, no read loop ever runs: by
/// the contract of `handle_read` no message is then delivered. The stream
/// can be had exactly when detaching is configured and a stream is
/// attached, and having it is remembered.
pub proof fn detached_channel_never_reads<H: Host>(m: ChannelModel<H>, op: Operation<H>)
    requires
        m.wf(),
        m.detach_data_channels,
    ensures
        !m.read_loop_running,
        !apply(m, op).read_loop_running,
        m.can_detach() ==> m.detach().detach_called,
        !m.can_detach() ==> m.detach() == m,
{
    well_formedness_is_kept(m, op);
}

/// A threshold asked for before the channel is open is still the
/// channel's threshold when the stream is set up and attached, and after.
/// By their contracts `configure_stream` and `handle_open` hand the stream
/// the channel's threshold of that moment, so the stream is handed this
/// one.
pub proof fn threshold_survives_opening<H: Host>(
    m: ChannelModel<H>,
    threshold: usize,
    transport: H::Transport,
    association_present: bool,
    id: u16,
    stream: Arc<Stream>,
)
    ensures
        m.set_buffered_amount_low_threshold(threshold).buffered_amount_low_threshold == threshold,
        m.set_buffered_amount_low_threshold(threshold).open(
            transport,
            association_present,
        ).assign_id(id).buffered_amount_low_threshold == threshold,
        m.set_buffered_amount_low_threshold(threshold).open(
            transport,
            association_present,
        ).assign_id(id).configure_stream().buffered_amount_low_threshold == threshold,
        m.set_buffered_amount_low_threshold(threshold).open(
            transport,
            association_present,
        ).assign_id(id).configure_stream().handle_open(stream).buffered_amount_low_threshold
            == threshold,
{
}

} // verus!
