//! What the channel asks its caller to do.
//!
//! The channel never waits. Where an operation needs the network, the
//! channel returns one of these values, which names the work and carries
//! all that the work needs.

use crate::host::Host;
use crate::message::DataChannelMessage;
use crate::reliability::Config;
use crate::stream::Stream;
use std::sync::Arc;
use vstd::prelude::*;

verus! {

/// A stream to be dialled on the association.
pub struct DialRequest {
    /// The stream identifier to dial.
    pub identifier: u16,
    /// The stream's configuration.
    pub config: Config,
}

/// What is to happen next in the opening of a channel.
pub enum OpenStep {
    /// The channel was handed a transport before: nothing is to be done.
    Nothing,
    /// The channel has no identifier: one is to be asked of the session and
    /// given to `assign_id`.
    AllocateId,
    /// The stream is to be dialled, set up by `configure_stream` and
    /// attached by `handle_open`.
    Dial(DialRequest),
}

/// What a stream was given before it is attached, and what is left to do
/// on it.
pub struct StreamSetup<H: Host> {
    /// The threshold that the channel stored in the stream; `None` where
    /// the channel has a stream already and the new one was left alone.
    pub threshold: Option<usize>,
    /// The low-watermark callback registered before the stream existed, to
    /// be installed on the stream.
    pub on_buffered_amount_low: Option<H::OnBufferedAmountLow>,
}

/// What the attaching of a stream did and what is left to do, in this
/// order: install the low-watermark callback on the stream, run the open
/// callback, start the read loop.
pub struct OpenCompletion<H: Host> {
    /// The threshold that the channel stored in the stream; `None` where
    /// the channel has a stream already and the new one was left alone.
    pub threshold: Option<usize>,
    /// A low-watermark callback that was still waiting for the stream.
    pub on_buffered_amount_low: Option<H::OnBufferedAmountLow>,
    /// The open callback, to be run once.
    pub on_open: Option<H::OnOpen>,
    /// Whether the read loop is to be started.
    pub spawn_read_loop: bool,
}

/// A threshold that the channel stored in its stream.
pub struct ThresholdPush {
    /// The stream that was given the threshold.
    pub stream: Arc<Stream>,
    /// The threshold it was given.
    pub threshold: usize,
}

/// A low-watermark callback to be installed on a stream.
pub struct Install<H: Host> {
    pub stream: Arc<Stream>,
    pub callback: H::OnBufferedAmountLow,
}

/// A message to be written to a stream.
pub struct Outbound {
    pub stream: Arc<Stream>,
    pub data: bytes::Bytes,
    pub is_string: bool,
}

/// A callback to be run when the read loop ends.
#[derive(Clone, Copy, Debug, PartialEq, Eq, Structural)]
pub enum Notification {
    /// The error callback, with the cause of the failed read.
    Error,
    /// The close callback.
    Close,
}

/// What the read loop is to do after a read.
pub enum ReadLoopStep {
    /// Hand the message to the message callback and read again.
    Deliver(DataChannelMessage),
    /// Run the callbacks named, first to last, and end the loop.
    Stop(Vec<Notification>),
}

} // verus!
