//! The data channel: its state and every decision of its life.

use crate::actions::{
    DialRequest, Install, Notification, OpenCompletion, OpenStep, Outbound, ReadLoopStep,
    StreamSetup, ThresholdPush,
};
use crate::error::ChannelError;
use crate::handlers::Slot;
use crate::host::Host;
use crate::message::{bytes_contents, message_from_read, text_payload};
use crate::model::{closing_notifications, ChannelModel};
use crate::parameters::DataChannelParameters;
use crate::reliability::{negotiate, Config, Reliability, CHANNEL_PRIORITY_NORMAL};
use crate::state::DataChannelState;
use crate::stats::stats_id;
use crate::stream::{cause_is_stream_closed, is_stream_closed, queued_amount, Stream};
use std::sync::Arc;
use vstd::prelude::*;
use vstd::utf8::encode_utf8;

verus! {

/// Size of the buffer that the read loop reads into: the largest message a
/// peer may send.
pub const DATA_CHANNEL_BUFFER_SIZE: u16 = 65535;

/// A bidirectional channel for messages between two peers.
///
/// It is created before any networking exists, is attached to a stream by
/// `open` and `handle_open`, and ends when the stream does. Its view is the
/// `ChannelModel` of what it holds.
pub struct RTCDataChannel<H: Host> {
    stats_id: String,
    label: String,
    ordered: bool,
    max_packet_lifetime: u16,
    max_retransmits: u16,
    protocol: String,
    negotiated: bool,
    id: u16,
    ready_state: DataChannelState,
    buffered_amount_low_threshold: usize,
    detach_called: bool,
    detach_data_channels: bool,
    read_loop_running: bool,
    on_message_handler: Slot<H::OnMessage>,
    on_open_handler: Slot<H::OnOpen>,
    on_close_handler: Slot<H::OnClose>,
    on_error_handler: Slot<H::OnError>,
    on_buffered_amount_low: Slot<H::OnBufferedAmountLow>,
    sctp_transport: Option<H::Transport>,
    data_channel: Option<Arc<Stream>>,
}

impl<H: Host> View for RTCDataChannel<H> {
    type V = ChannelModel<H>;

    closed spec fn view(&self) -> ChannelModel<H> {
        ChannelModel {
            stats_id: self.stats_id@,
            label: self.label@,
            protocol: self.protocol@,
            ordered: self.ordered,
            max_packet_lifetime: self.max_packet_lifetime,
            max_retransmits: self.max_retransmits,
            negotiated: self.negotiated,
            id: self.id,
            ready_state: self.ready_state,
            buffered_amount_low_threshold: self.buffered_amount_low_threshold,
            detach_data_channels: self.detach_data_channels,
            detach_called: self.detach_called,
            read_loop_running: self.read_loop_running,
            transport: self.sctp_transport,
            stream: self.data_channel,
            on_open: self.on_open_handler@,
            on_close: self.on_close_handler@,
            on_message: self.on_message_handler@,
            on_error: self.on_error_handler@,
            on_buffered_amount_low: self.on_buffered_amount_low@,
        }
    }
}

impl<H: Host> RTCDataChannel<H> {
    /// Creates the channel, before any networking is set up.
    ///
    /// `detach_data_channels` says whether the application will take the
    /// stream over once the channel is open. `created_at` is the time of
    /// creation in nanoseconds since the epoch; it only names the channel
    /// in diagnostics.
    pub fn new(
        params: DataChannelParameters,
        detach_data_channels: bool,
        created_at: u128,
    ) -> (channel: Self)
        ensures
            channel@ == ChannelModel::<H>::initial(params, detach_data_channels, created_at),
            channel@.wf(),
    {
        RTCDataChannel {
            stats_id: stats_id(created_at),
            label: params.label,
            protocol: params.protocol,
            negotiated: params.negotiated,
            id: params.id,
            ordered: params.ordered,
            max_packet_lifetime: params.max_packet_lifetime,
            max_retransmits: params.max_retransmits,
            ready_state: DataChannelState::Connecting,
            buffered_amount_low_threshold: 0,
            detach_called: false,
            detach_data_channels,
            read_loop_running: false,
            on_message_handler: Slot::new(),
            on_open_handler: Slot::new(),
            on_close_handler: Slot::new(),
            on_error_handler: Slot::new(),
            on_buffered_amount_low: Slot::new(),
            sctp_transport: None,
            data_channel: None,
        }
    }

    /// The dial that this channel asks for.
    fn dial_request(&self) -> (request: DialRequest)
        ensures
            self@.dials(request),
    {
        let reliability: Reliability = negotiate(
            self.ordered,
            self.max_packet_lifetime,
            self.max_retransmits,
        );
        DialRequest {
            identifier: self.id,
            config: Config {
                channel_type: reliability.channel_type,
                priority: CHANNEL_PRIORITY_NORMAL,
                reliability_parameter: reliability.reliability_parameter,
                label: self.label.clone(),
                protocol: self.protocol.clone(),
                negotiated: self.negotiated,
            },
        }
    }

    /// Starts opening the channel over the given transport.
    ///
    /// `association_present` says whether the transport has an active
    /// association. A channel that was given a transport before answers
    /// `Nothing` and is left as it is, whatever the arguments. Otherwise a
    /// transport without an association is refused, and the channel is left
    /// as it is. Otherwise the transport is kept, and the answer is the
    /// next step: to allocate an identifier if the channel has none, else
    /// to dial.
    pub fn open(
        &mut self,
        sctp_transport: H::Transport,
        association_present: bool,
    ) -> (res: Result<OpenStep, ChannelError>)
        ensures
            final(self)@ == old(self)@.open(sctp_transport, association_present),
            old(self)@.transport is Some ==> res matches Ok(OpenStep::Nothing),
            old(self)@.transport is None && !association_present ==> res == Err::<
                OpenStep,
                ChannelError,
            >(ChannelError::ErrSCTPNotEstablished),
            old(self)@.transport is None && association_present && old(self)@.id == 0
                ==> res matches Ok(OpenStep::AllocateId),
            old(self)@.transport is None && association_present && old(self)@.id != 0
                ==> (res matches Ok(OpenStep::Dial(request)) && final(self)@.dials(request)),
    {
        if self.sctp_transport.is_some() {
            return Ok(OpenStep::Nothing);
        }
        if !association_present {
            return Err(ChannelError::ErrSCTPNotEstablished);
        }
        self.sctp_transport = Some(sctp_transport);
        if self.id == 0 {
            Ok(OpenStep::AllocateId)
        } else {
            Ok(OpenStep::Dial(self.dial_request()))
        }
    }

    /// Takes the identifier that the session allocated and answers with the
    /// dial to make.
    ///
    /// Outside a pending handshake the answer is `None` and nothing
    /// changes. An identifier that the channel already has is never
    /// replaced.
    pub fn assign_id(&mut self, id: u16) -> (request: Option<DialRequest>)
        ensures
            final(self)@ == old(self)@.assign_id(id),
            request is Some <==> old(self)@.handshake_pending(),
            request matches Some(r) ==> final(self)@.dials(r),
    {
        if self.sctp_transport.is_none() || self.data_channel.is_some() {
            return None;
        }
        if self.id == 0 {
            self.id = id;
        }
        Some(self.dial_request())
    }

    /// The transport that the channel was opened over, if any.
    pub fn transport(&self) -> (transport: Option<&H::Transport>)
        ensures
            transport is Some <==> self@.transport is Some,
            transport matches Some(t) ==> self@.transport == Some(*t),
    {
        self.sctp_transport.as_ref()
    }

    /// Whether a warning is due that detaching is configured and the
    /// application has not detached. To be asked after the open callback
    /// has run.
    pub fn check_detach_after_open(&self) -> (warn: bool)
        ensures
            warn == (self@.detach_data_channels && !self@.detach_called),
    {
        self.detach_data_channels && !self.detach_called
    }

    /// Registers the callback for the opening of the channel.
    ///
    /// On an open channel the callback is handed straight back, to be run
    /// now, and the slot is left alone. Otherwise it is stored, in place of
    /// one stored before, and `None` is returned.
    pub fn on_open(&mut self, f: H::OnOpen) -> (fire: Option<H::OnOpen>)
        ensures
            final(self)@ == old(self)@.on_open(f),
            old(self)@.ready_state is Open ==> fire == Some(f),
            !(old(self)@.ready_state is Open) ==> fire is None,
    {
        if self.ready_state == DataChannelState::Open {
            Some(f)
        } else {
            self.on_open_handler.register(f);
            None
        }
    }

    /// Registers the callback for the end of the stream, in place of one
    /// registered before.
    pub fn on_close(&mut self, f: H::OnClose)
        ensures
            final(self)@ == old(self)@.on_close(f),
    {
        self.on_close_handler.register(f);
    }

    /// Registers the callback for inbound messages, in place of one
    /// registered before.
    pub fn on_message(&mut self, f: H::OnMessage)
        ensures
            final(self)@ == old(self)@.on_message(f),
    {
        self.on_message_handler.register(f);
    }

    /// Registers the callback for a failed read, in place of one registered
    /// before.
    pub fn on_error(&mut self, f: H::OnError)
        ensures
            final(self)@ == old(self)@.on_error(f),
    {
        self.on_error_handler.register(f);
    }

    /// Sets up the dialled stream before it is attached.
    ///
    /// The stream is given the threshold asked for so far, and the answer
    /// names that threshold and the low-watermark callback registered so
    /// far, which leaves its slot to be installed on the stream. The
    /// channel itself stays as it is: the stream is attached by
    /// `handle_open`, once the callback is installed. A channel that has a
    /// stream gives the new one nothing and changes nothing.
    pub fn configure_stream(&mut self, dc: &Arc<Stream>) -> (setup: StreamSetup<H>)
        ensures
            final(self)@ == old(self)@.configure_stream(),
            old(self)@.stream is None ==> {
                &&& setup.threshold == Some(old(self)@.buffered_amount_low_threshold)
                &&& setup.on_buffered_amount_low == old(self)@.on_buffered_amount_low
            },
            old(self)@.stream is Some ==> {
                &&& setup.threshold is None
                &&& setup.on_buffered_amount_low is None
            },
    {
        if self.data_channel.is_some() {
            return StreamSetup { threshold: None, on_buffered_amount_low: None };
        }
        let threshold: usize = self.buffered_amount_low_threshold;
        dc.set_buffered_amount_low_threshold(threshold);
        StreamSetup {
            threshold: Some(threshold),
            on_buffered_amount_low: self.on_buffered_amount_low.take(),
        }
    }

    /// Attaches the stream.
    ///
    /// The stream is given the threshold asked for so far, and the channel
    /// keeps the stream. A channel that is still connecting becomes open;
    /// one that was asked to close in the meantime stays closing. The
    /// answer names the threshold handed over and what is left to do: a
    /// low-watermark callback that still waited for the stream and the
    /// open callback, both of which leave their slots, and whether to start
    /// the read loop, which is the case unless the application takes the
    /// stream over. A channel that has a stream keeps it: the call changes
    /// nothing, the new stream is given nothing and nothing is left to do.
    pub fn handle_open(&mut self, dc: Arc<Stream>) -> (completion: OpenCompletion<H>)
        ensures
            final(self)@ == old(self)@.handle_open(dc),
            old(self)@.stream is None ==> {
                &&& completion.threshold == Some(old(self)@.buffered_amount_low_threshold)
                &&& completion.on_buffered_amount_low == old(self)@.on_buffered_amount_low
                &&& completion.on_open == old(self)@.on_open
                &&& completion.spawn_read_loop == !old(self)@.detach_data_channels
            },
            old(self)@.stream is Some ==> {
                &&& completion.threshold is None
                &&& completion.on_buffered_amount_low is None
                &&& completion.on_open is None
                &&& !completion.spawn_read_loop
            },
    {
        if self.data_channel.is_some() {
            return OpenCompletion {
                threshold: None,
                on_buffered_amount_low: None,
                on_open: None,
                spawn_read_loop: false,
            };
        }
        let threshold: usize = self.buffered_amount_low_threshold;
        dc.set_buffered_amount_low_threshold(threshold);
        let on_buffered_amount_low = self.on_buffered_amount_low.take();
        self.data_channel = Some(dc);
        if self.ready_state == DataChannelState::Connecting {
            self.set_ready_state(DataChannelState::Open);
        }
        let on_open = self.on_open_handler.take();
        self.read_loop_running = !self.detach_data_channels;
        OpenCompletion {
            threshold: Some(threshold),
            on_buffered_amount_low,
            on_open,
            spawn_read_loop: !self.detach_data_channels,
        }
    }

    /// What the read loop does with a read of `n` bytes into `buffer`.
    ///
    /// A running loop delivers exactly the bytes read, with the text flag
    /// as read. A loop that is not running delivers nothing and stops.
    pub fn handle_read(&self, buffer: &[u8], n: usize, is_string: bool) -> (step: ReadLoopStep)
        requires
            n <= buffer@.len(),
        ensures
            self@.read_loop_running ==> {
                &&& step matches ReadLoopStep::Deliver(message)
                &&& message.is_string == is_string
                &&& bytes_contents(message.data) == buffer@.subrange(0, n as int)
            },
            !self@.read_loop_running ==> {
                &&& step matches ReadLoopStep::Stop(notifications)
                &&& notifications@ == Seq::<Notification>::empty()
            },
    {
        if self.read_loop_running {
            ReadLoopStep::Deliver(message_from_read(buffer, n, is_string))
        } else {
            ReadLoopStep::Stop(Vec::new())
        }
    }

    /// What the read loop does when a read has failed.
    ///
    /// `stream_closed` says whether the failure is the stream reporting
    /// that it is closed. The channel is closed before anything else
    /// happens. The answer names the callbacks to run, in order: the error
    /// callback unless the stream was simply closed, then the close
    /// callback. The loop stops for good. If no loop is running, nothing
    /// changes and no callback is named.
    pub fn handle_read_failure(&mut self, stream_closed: bool) -> (step: ReadLoopStep)
        ensures
            final(self)@ == old(self)@.handle_read_failure(),
            step matches ReadLoopStep::Stop(notifications) && notifications@
                == closing_notifications(old(self)@.read_loop_running, stream_closed),
    {
        let mut notifications: Vec<Notification> = Vec::new();
        if self.read_loop_running {
            self.set_ready_state(DataChannelState::Closed);
            self.read_loop_running = false;
            if !stream_closed {
                notifications.push(Notification::Error);
            }
            notifications.push(Notification::Close);
        }
        assert(notifications@ =~= closing_notifications(
            old(self)@.read_loop_running,
            stream_closed,
        ));
        ReadLoopStep::Stop(notifications)
    }

    /// What the read loop does when a read has failed with `cause`.
    ///
    /// The cause is asked whether it is the stream's report of being
    /// closed, and the rest is `handle_read_failure` with the answer: the
    /// error callback is named exactly when the cause is anything else.
    pub fn handle_read_error(&mut self, cause: &anyhow::Error) -> (step: ReadLoopStep)
        ensures
            final(self)@ == old(self)@.handle_read_failure(),
            step matches ReadLoopStep::Stop(notifications) && notifications@
                == closing_notifications(
                old(self)@.read_loop_running,
                cause_is_stream_closed(*cause),
            ),
    {
        let stream_closed = is_stream_closed(cause);
        self.handle_read_failure(stream_closed)
    }

    /// The slot of the close callback, from which the read loop takes the
    /// callback to run it and to which it restores it.
    pub fn on_close_slot(&mut self) -> (slot: &mut Slot<H::OnClose>)
        ensures
            slot@ == old(self)@.on_close,
            final(self)@ == (ChannelModel { on_close: final(slot)@, ..old(self)@ }),
    {
        &mut self.on_close_handler
    }

    /// The slot of the message callback, from which the read loop takes the
    /// callback to run it and to which it restores it.
    pub fn on_message_slot(&mut self) -> (slot: &mut Slot<H::OnMessage>)
        ensures
            slot@ == old(self)@.on_message,
            final(self)@ == (ChannelModel { on_message: final(slot)@, ..old(self)@ }),
    {
        &mut self.on_message_handler
    }

    /// The slot of the error callback, from which the read loop takes the
    /// callback to run it and to which it restores it.
    pub fn on_error_slot(&mut self) -> (slot: &mut Slot<H::OnError>)
        ensures
            slot@ == old(self)@.on_error,
            final(self)@ == (ChannelModel { on_error: final(slot)@, ..old(self)@ }),
    {
        &mut self.on_error_handler
    }

    /// Asks to send a binary message.
    ///
    /// On an open channel the answer is the write to make: the payload as
    /// given, marked binary, on the channel's stream. On any other channel
    /// the message is refused.
    pub fn send(&self, data: bytes::Bytes) -> (res: Result<Outbound, ChannelError>)
        ensures
            res is Ok <==> self@.can_send(),
            res matches Ok(out) ==> {
                &&& Some(out.stream) == self@.stream
                &&& out.data == data
                &&& !out.is_string
            },
            res matches Err(e) ==> e == ChannelError::ErrClosedPipe,
    {
        self.ensure_open()?;
        match &self.data_channel {
            Some(dc) => Ok(Outbound { stream: Arc::clone(dc), data, is_string: false }),
            None => Err(ChannelError::ErrClosedPipe),
        }
    }

    /// Asks to send a text message.
    ///
    /// On an open channel the answer is the write to make: the UTF-8
    /// encoding of the text, marked text, on the channel's stream. On any
    /// other channel the message is refused.
    pub fn send_text(&self, s: String) -> (res: Result<Outbound, ChannelError>)
        ensures
            res is Ok <==> self@.can_send(),
            res matches Ok(out) ==> {
                &&& Some(out.stream) == self@.stream
                &&& bytes_contents(out.data) == encode_utf8(s@)
                &&& out.is_string
            },
            res matches Err(e) ==> e == ChannelError::ErrClosedPipe,
    {
        self.ensure_open()?;
        match &self.data_channel {
            Some(dc) => Ok(
                Outbound { stream: Arc::clone(dc), data: text_payload(s.as_str()), is_string: true },
            ),
            None => Err(ChannelError::ErrClosedPipe),
        }
    }

    /// Succeeds on an open channel and on no other.
    fn ensure_open(&self) -> (res: Result<(), ChannelError>)
        ensures
            res is Ok <==> self@.ready_state is Open,
            res matches Err(e) ==> e == ChannelError::ErrClosedPipe,
    {
        if self.ready_state != DataChannelState::Open {
            Err(ChannelError::ErrClosedPipe)
        } else {
            Ok(())
        }
    }

    /// Hands the stream to the application.
    ///
    /// Refused unless detaching is configured, and then refused while no
    /// stream is attached. A successful call is remembered.
    pub fn detach(&mut self) -> (res: Result<Arc<Stream>, ChannelError>)
        ensures
            final(self)@ == old(self)@.detach(),
            res is Ok <==> old(self)@.can_detach(),
            res matches Ok(stream) ==> Some(stream) == old(self)@.stream,
            res matches Err(e) ==> e == (if !old(self)@.detach_data_channels {
                ChannelError::ErrDetachNotEnabled
            } else {
                ChannelError::ErrDetachBeforeOpened
            }),
    {
        if !self.detach_data_channels {
            return Err(ChannelError::ErrDetachNotEnabled);
        }
        match &self.data_channel {
            Some(dc) => {
                let stream = Arc::clone(dc);
                self.detach_called = true;
                Ok(stream)
            },
            None => Err(ChannelError::ErrDetachBeforeOpened),
        }
    }

    /// Asks to close the channel.
    ///
    /// A closed channel is left as it is and nothing is to be done. Any
    /// other channel becomes closing, and the answer is the stream to
    /// close, if one is attached. The channel becomes closed only when the
    /// read loop sees the stream end.
    pub fn close(&mut self) -> (stream: Option<Arc<Stream>>)
        ensures
            final(self)@ == old(self)@.close(),
            old(self)@.ready_state is Closed ==> stream is None,
            !(old(self)@.ready_state is Closed) ==> stream == old(self)@.stream,
    {
        if self.ready_state == DataChannelState::Closed {
            return None;
        }
        self.set_ready_state(DataChannelState::Closing);
        match &self.data_channel {
            Some(dc) => Some(Arc::clone(dc)),
            None => None,
        }
    }

    /// The name by which the application tells its channels apart.
    pub fn label(&self) -> (label: &str)
        ensures
            label@ == self@.label,
    {
        self.label.as_str()
    }

    /// Whether messages arrive in the order sent.
    pub fn ordered(&self) -> (ordered: bool)
        ensures
            ordered == self@.ordered,
    {
        self.ordered
    }

    /// Milliseconds during which a message may be retransmitted; zero for
    /// no limit.
    pub fn max_packet_lifetime(&self) -> (lifetime: u16)
        ensures
            lifetime == self@.max_packet_lifetime,
    {
        self.max_packet_lifetime
    }

    /// Number of retransmissions of a message; zero for no limit.
    pub fn max_retransmits(&self) -> (retransmits: u16)
        ensures
            retransmits == self@.max_retransmits,
    {
        self.max_retransmits
    }

    /// The name of the sub-protocol spoken on the channel.
    pub fn protocol(&self) -> (protocol: &str)
        ensures
            protocol@ == self@.protocol,
    {
        self.protocol.as_str()
    }

    /// Whether both peers agreed on the identifier out of band.
    pub fn negotiated(&self) -> (negotiated: bool)
        ensures
            negotiated == self@.negotiated,
    {
        self.negotiated
    }

    /// The identifier of the channel; zero while none is assigned.
    pub fn id(&self) -> (id: u16)
        ensures
            id == self@.id,
    {
        self.id
    }

    /// The lifecycle state of the channel.
    pub fn ready_state(&self) -> (state: DataChannelState)
        ensures
            state == self@.ready_state,
    {
        self.ready_state
    }

    /// The number of bytes queued on the stream for sending; zero while no
    /// stream is attached. With a stream attached the stream is asked, and
    /// the answer is `queued_amount` of what it reports.
    pub fn buffered_amount(&self) -> (amount: usize)
        ensures
            self@.stream is None ==> amount == 0,
    {
        let reported: Option<usize> = match &self.data_channel {
            Some(dc) => Some(dc.buffered_amount()),
            None => None,
        };
        queued_amount(reported)
    }

    /// The threshold below which the buffered amount counts as low: the
    /// stream's own once one is attached, until then the one last asked
    /// for.
    pub fn buffered_amount_low_threshold(&self) -> (threshold: usize)
        ensures
            self@.stream is None ==> threshold == self@.buffered_amount_low_threshold,
    {
        match &self.data_channel {
            Some(dc) => dc.buffered_amount_low_threshold(),
            None => self.buffered_amount_low_threshold,
        }
    }

    /// Sets the threshold below which the buffered amount counts as low.
    ///
    /// The channel remembers it. A stream that is attached is given it at
    /// once, and the answer names that stream and the threshold handed
    /// over; without a stream the answer is `None`.
    pub fn set_buffered_amount_low_threshold(&mut self, th: usize) -> (push: Option<ThresholdPush>)
        ensures
            final(self)@ == old(self)@.set_buffered_amount_low_threshold(th),
            push is Some <==> old(self)@.stream is Some,
            push matches Some(p) ==> Some(p.stream) == old(self)@.stream && p.threshold == th,
    {
        self.buffered_amount_low_threshold = th;
        match &self.data_channel {
            Some(dc) => {
                let push = ThresholdPush { stream: Arc::clone(dc), threshold: th };
                push.stream.set_buffered_amount_low_threshold(push.threshold);
                Some(push)
            },
            None => None,
        }
    }

    /// Registers the callback for the buffered amount falling to the
    /// threshold.
    ///
    /// With a stream attached the answer is the installation to make on
    /// that stream, and the channel stores nothing. Without one the
    /// callback is stored, in place of one stored before, until a stream is
    /// attached.
    pub fn on_buffered_amount_low(
        &mut self,
        f: H::OnBufferedAmountLow,
    ) -> (install: Option<Install<H>>)
        ensures
            final(self)@ == old(self)@.on_buffered_amount_low(f),
            install is Some <==> old(self)@.stream is Some,
            install matches Some(i) ==> Some(i.stream) == old(self)@.stream && i.callback == f,
    {
        match &self.data_channel {
            Some(dc) => Some(Install { stream: Arc::clone(dc), callback: f }),
            None => {
                self.on_buffered_amount_low.register(f);
                None
            },
        }
    }

    /// The name of the channel in diagnostics.
    pub fn get_stats_id(&self) -> (id: &str)
        ensures
            id@ == self@.stats_id,
    {
        self.stats_id.as_str()
    }

    fn set_ready_state(&mut self, r: DataChannelState)
        ensures
            final(self)@ == (ChannelModel { ready_state: r, ..old(self)@ }),
    {
        self.ready_state = r;
    }
}

} // verus!
