//! The channel as a mathematical value, and each operation as a function
//! on such values.

use crate::actions::{DialRequest, Notification};
use crate::host::Host;
use crate::parameters::DataChannelParameters;
use crate::reliability::{spec_negotiate, CHANNEL_PRIORITY_NORMAL};
use crate::state::DataChannelState;
use crate::stats::spec_stats_id;
use crate::stream::Stream;
use std::sync::Arc;
use vstd::prelude::*;

verus! {

/// Everything a channel holds.
pub struct ChannelModel<H: Host> {
    pub stats_id: Seq<char>,
    pub label: Seq<char>,
    pub protocol: Seq<char>,
    pub ordered: bool,
    pub max_packet_lifetime: u16,
    pub max_retransmits: u16,
    pub negotiated: bool,
    /// Zero while no identifier is assigned.
    pub id: u16,
    pub ready_state: DataChannelState,
    /// The threshold last asked for, whether or not a stream exists.
    pub buffered_amount_low_threshold: usize,
    /// Whether the application takes the stream over after opening.
    pub detach_data_channels: bool,
    pub detach_called: bool,
    pub read_loop_running: bool,
    pub transport: Option<H::Transport>,
    pub stream: Option<Arc<Stream>>,
    pub on_open: Option<H::OnOpen>,
    pub on_close: Option<H::OnClose>,
    pub on_message: Option<H::OnMessage>,
    pub on_error: Option<H::OnError>,
    pub on_buffered_amount_low: Option<H::OnBufferedAmountLow>,
}

/// The callbacks that end a read loop, in the order in which they run: the
/// error callback unless the stream was simply closed, then the close
/// callback. A loop that is not running ends without any.
pub open spec fn closing_notifications(running: bool, stream_closed: bool) -> Seq<Notification> {
    if !running {
        Seq::empty()
    } else if stream_closed {
        seq![Notification::Close]
    } else {
        seq![Notification::Error, Notification::Close]
    }
}

impl<H: Host> ChannelModel<H> {
    /// A channel as it is created: connecting, with nothing attached and
    /// nothing registered.
    pub open spec fn initial(
        params: DataChannelParameters,
        detach_data_channels: bool,
        created_at: u128,
    ) -> Self {
        ChannelModel {
            stats_id: spec_stats_id(created_at),
            label: params.label@,
            protocol: params.protocol@,
            ordered: params.ordered,
            max_packet_lifetime: params.max_packet_lifetime,
            max_retransmits: params.max_retransmits,
            negotiated: params.negotiated,
            id: params.id,
            ready_state: DataChannelState::Connecting,
            buffered_amount_low_threshold: 0,
            detach_data_channels,
            detach_called: false,
            read_loop_running: false,
            transport: None,
            stream: None,
            on_open: None,
            on_close: None,
            on_message: None,
            on_error: None,
            on_buffered_amount_low: None,
        }
    }

    /// What holds of every channel that was created by `initial` and
    /// changed only by the operations below.
    pub open spec fn wf(self) -> bool {
        &&& self.stream is None ==> (self.ready_state is Connecting || self.ready_state is Closing)
        &&& self.stream is None ==> !self.read_loop_running && !self.detach_called
        &&& self.stream is Some ==> !(self.ready_state is Connecting)
        &&& self.detach_data_channels ==> !self.read_loop_running && !(self.ready_state is Closed)
        &&& self.stream is Some && !self.detach_data_channels ==> (self.read_loop_running
            <==> !(self.ready_state is Closed))
        &&& self.detach_called ==> self.detach_data_channels
    }

    /// A transport was handed over and no stream is attached yet.
    pub open spec fn handshake_pending(self) -> bool {
        self.transport is Some && self.stream is None
    }

    /// `request` is the dial that this channel asks for.
    pub open spec fn dials(self, request: DialRequest) -> bool {
        let reliability = spec_negotiate(
            self.ordered,
            self.max_packet_lifetime,
            self.max_retransmits,
        );
        &&& request.identifier == self.id
        &&& request.config.channel_type == reliability.channel_type
        &&& request.config.reliability_parameter == reliability.reliability_parameter
        &&& request.config.priority == CHANNEL_PRIORITY_NORMAL
        &&& request.config.label@ == self.label
        &&& request.config.protocol@ == self.protocol
        &&& request.config.negotiated == self.negotiated
    }

    /// `open`: the first transport offered together with an association is
    /// kept. Any other call changes nothing.
    pub open spec fn open(self, transport: H::Transport, association_present: bool) -> Self {
        if self.transport is None && association_present {
            ChannelModel { transport: Some(transport), ..self }
        } else {
            self
        }
    }

    /// `assign_id`: while the handshake is pending and no identifier is
    /// assigned, `id` becomes the identifier.
    pub open spec fn assign_id(self, id: u16) -> Self {
        if self.handshake_pending() && self.id == 0 {
            ChannelModel { id, ..self }
        } else {
            self
        }
    }

    /// `configure_stream`: while no stream is attached, the low-watermark
    /// callback leaves its slot for the stream that is being set up.
    pub open spec fn configure_stream(self) -> Self {
        if self.stream is None {
            ChannelModel { on_buffered_amount_low: None, ..self }
        } else {
            self
        }
    }

    /// Whether attaching a stream opens the channel: only a channel that
    /// is still connecting opens. One that was asked to close stays as it
    /// is.
    pub open spec fn opens_on_attach(self) -> bool {
        self.stream is None && self.ready_state is Connecting
    }

    /// `handle_open`: the first stream offered is attached, and the read
    /// loop runs unless the application takes the stream over. The two
    /// callbacks that wait for the stream leave their slots. A connecting
    /// channel becomes open; any other state stays.
    pub open spec fn handle_open(self, stream: Arc<Stream>) -> Self {
        if self.stream is None {
            ChannelModel {
                stream: Some(stream),
                ready_state: if self.opens_on_attach() {
                    DataChannelState::Open
                } else {
                    self.ready_state
                },
                read_loop_running: !self.detach_data_channels,
                on_open: None,
                on_buffered_amount_low: None,
                ..self
            }
        } else {
            self
        }
    }

    /// `on_open`: the callback is kept unless the channel is open.
    pub open spec fn on_open(self, f: H::OnOpen) -> Self {
        if self.ready_state is Open {
            self
        } else {
            ChannelModel { on_open: Some(f), ..self }
        }
    }

    /// `on_close`: the callback replaces the one registered before.
    pub open spec fn on_close(self, f: H::OnClose) -> Self {
        ChannelModel { on_close: Some(f), ..self }
    }

    /// `on_message`: the callback replaces the one registered before.
    pub open spec fn on_message(self, f: H::OnMessage) -> Self {
        ChannelModel { on_message: Some(f), ..self }
    }

    /// `on_error`: the callback replaces the one registered before.
    pub open spec fn on_error(self, f: H::OnError) -> Self {
        ChannelModel { on_error: Some(f), ..self }
    }

    /// `on_buffered_amount_low`: the callback is kept unless a stream is
    /// attached to take it.
    pub open spec fn on_buffered_amount_low(self, f: H::OnBufferedAmountLow) -> Self {
        if self.stream is Some {
            self
        } else {
            ChannelModel { on_buffered_amount_low: Some(f), ..self }
        }
    }

    /// Whether a message may be sent.
    pub open spec fn can_send(self) -> bool {
        self.ready_state is Open && self.stream is Some
    }

    /// `close`: a channel that is not closed becomes closing.
    pub open spec fn close(self) -> Self {
        if self.ready_state is Closed {
            self
        } else {
            ChannelModel { ready_state: DataChannelState::Closing, ..self }
        }
    }

    /// Whether the stream may be handed to the application.
    pub open spec fn can_detach(self) -> bool {
        self.detach_data_channels && self.stream is Some
    }

    /// `detach`: a successful call is remembered.
    pub open spec fn detach(self) -> Self {
        if self.can_detach() {
            ChannelModel { detach_called: true, ..self }
        } else {
            self
        }
    }

    /// `set_buffered_amount_low_threshold`: the threshold is remembered.
    pub open spec fn set_buffered_amount_low_threshold(self, threshold: usize) -> Self {
        ChannelModel { buffered_amount_low_threshold: threshold, ..self }
    }

    /// `handle_read_failure`: a running read loop ends and the channel is
    /// closed.
    pub open spec fn handle_read_failure(self) -> Self {
        if self.read_loop_running {
            ChannelModel {
                ready_state: DataChannelState::Closed,
                read_loop_running: false,
                ..self
            }
        } else {
            self
        }
    }
}

} // verus!
