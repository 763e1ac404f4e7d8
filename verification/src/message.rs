//! Messages and their payload.

use vstd::prelude::*;
use vstd::slice::{slice_subrange, slice_to_vec};
use vstd::utf8::encode_utf8;

verus! {

/// `bytes::Bytes`, an immutable shared byte buffer. Nothing inside it is
/// visible here; what it holds goes by the name `bytes_contents`.
#[verifier::external_type_specification]
#[verifier::external_body]
pub struct ExBytes(bytes::Bytes);

/// The bytes that a buffer holds, first to last.
pub uninterp spec fn bytes_contents(b: bytes::Bytes) -> Seq<u8>;

/// `Bytes::from(Vec<u8>)`: the buffer takes over the vector's storage, so
/// it holds exactly the vector's bytes in the same order.
#[verifier::external_body]
pub(crate) fn bytes_from_vec(v: Vec<u8>) -> (b: bytes::Bytes)
    ensures
        bytes_contents(b) == v@,
{
    bytes::Bytes::from(v)
}

/// A message received from or sent to the peer.
pub struct DataChannelMessage {
    /// Whether the payload is text rather than binary data.
    pub is_string: bool,
    /// The payload.
    pub data: bytes::Bytes,
}

/// The message that a read of `n` bytes into `buffer` delivered: exactly
/// the first `n` bytes, and the text flag as given.
pub fn message_from_read(buffer: &[u8], n: usize, is_string: bool) -> (message: DataChannelMessage)
    requires
        n <= buffer@.len(),
    ensures
        message.is_string == is_string,
        bytes_contents(message.data) == buffer@.subrange(0, n as int),
{
    let read = slice_subrange(buffer, 0, n);
    DataChannelMessage { is_string, data: bytes_from_vec(slice_to_vec(read)) }
}

/// The payload of a text message: the UTF-8 encoding of `text`.
pub fn text_payload(text: &str) -> (data: bytes::Bytes)
    ensures
        bytes_contents(data) == encode_utf8(text@),
{
    bytes_from_vec(slice_to_vec(text.as_bytes()))
}

} // verus!
