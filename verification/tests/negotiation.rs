use data_channel::error::ChannelError;
use data_channel::handlers::Slot;
use data_channel::message::{message_from_read, text_payload};
use data_channel::reliability::{negotiate, ChannelType, Reliability, CHANNEL_PRIORITY_NORMAL};
use data_channel::stats::stats_id;

fn pair(channel_type: ChannelType, reliability_parameter: u32) -> Reliability {
    Reliability { channel_type, reliability_parameter }
}

#[test]
fn reliable_ordered_when_no_cap_is_set() {
    assert_eq!(negotiate(true, 0, 0), pair(ChannelType::Reliable, 0));
}

#[test]
fn reliable_unordered_when_no_cap_is_set() {
    assert_eq!(negotiate(false, 0, 0), pair(ChannelType::ReliableUnordered, 0));
}

#[test]
fn retransmit_cap_ordered() {
    assert_eq!(negotiate(true, 0, 5), pair(ChannelType::PartialReliableRexmit, 5));
}

#[test]
fn retransmit_cap_unordered() {
    assert_eq!(negotiate(false, 0, 3), pair(ChannelType::PartialReliableRexmitUnordered, 3));
}

#[test]
fn lifetime_cap_ordered() {
    assert_eq!(negotiate(true, 1500, 0), pair(ChannelType::PartialReliableTimed, 1500));
}

#[test]
fn lifetime_cap_unordered() {
    assert_eq!(negotiate(false, 250, 0), pair(ChannelType::PartialReliableTimedUnordered, 250));
}

#[test]
fn retransmit_cap_wins_over_lifetime_cap() {
    assert_eq!(negotiate(true, 1000, 7), pair(ChannelType::PartialReliableRexmit, 7));
    assert_eq!(negotiate(false, 1000, 7), pair(ChannelType::PartialReliableRexmitUnordered, 7));
}

#[test]
fn caps_at_their_largest() {
    assert_eq!(negotiate(true, 0, u16::MAX), pair(ChannelType::PartialReliableRexmit, 65535));
    assert_eq!(negotiate(false, u16::MAX, 0), pair(ChannelType::PartialReliableTimedUnordered, 65535));
}

#[test]
fn normal_priority_is_256() {
    assert_eq!(CHANNEL_PRIORITY_NORMAL, 256);
}

#[test]
fn stats_id_of_zero() {
    assert_eq!(stats_id(0), "DataChannel-0");
}

#[test]
fn stats_id_of_a_single_digit() {
    assert_eq!(stats_id(9), "DataChannel-9");
}

#[test]
fn stats_id_of_a_round_number() {
    assert_eq!(stats_id(10), "DataChannel-10");
    assert_eq!(stats_id(1000), "DataChannel-1000");
}

#[test]
fn stats_id_of_a_timestamp() {
    assert_eq!(stats_id(1_634_567_890_123_456_789), "DataChannel-1634567890123456789");
}

#[test]
fn stats_id_of_the_largest_time() {
    assert_eq!(stats_id(u128::MAX), format!("DataChannel-{}", u128::MAX));
}

#[test]
fn error_messages() {
    assert_eq!(ChannelError::ErrSCTPNotEstablished.message(), "SCTP not established");
    assert_eq!(ChannelError::ErrClosedPipe.message(), "io: read/write on closed pipe");
    assert_eq!(
        ChannelError::ErrDetachNotEnabled.message(),
        "enable detaching by calling webrtc.DetachDataChannels()"
    );
    assert_eq!(
        ChannelError::ErrDetachBeforeOpened.message(),
        "datachannel not opened yet, try calling Detach from OnOpen"
    );
}

#[test]
fn message_holds_exactly_the_bytes_read() {
    let buffer = [1u8, 2, 3, 4, 5, 6, 7, 8];
    let message = message_from_read(&buffer, 3, false);
    assert!(!message.is_string);
    assert_eq!(&message.data[..], &[1u8, 2, 3]);
}

#[test]
fn message_of_no_bytes() {
    let buffer = [9u8; 16];
    let message = message_from_read(&buffer, 0, true);
    assert!(message.is_string);
    assert!(message.data.is_empty());
}

#[test]
fn message_of_the_whole_buffer() {
    let buffer = [7u8, 8, 9];
    let message = message_from_read(&buffer, 3, true);
    assert_eq!(&message.data[..], &[7u8, 8, 9]);
}

#[test]
fn text_payload_is_utf8() {
    assert_eq!(&text_payload("hi")[..], b"hi");
    assert_eq!(&text_payload("é€")[..], &[0xc3u8, 0xa9, 0xe2, 0x82, 0xac]);
    assert!(text_payload("").is_empty());
}

#[test]
fn slot_starts_empty() {
    let mut slot: Slot<u32> = Slot::new();
    assert!(!slot.is_registered());
    assert_eq!(slot.take(), None);
}

#[test]
fn slot_keeps_the_last_registration() {
    let mut slot: Slot<u32> = Slot::new();
    slot.register(1);
    slot.register(2);
    assert!(slot.is_registered());
    assert_eq!(slot.take(), Some(2));
    assert!(!slot.is_registered());
    assert_eq!(slot.take(), None);
}

#[test]
fn slot_restore_fills_an_empty_slot() {
    let mut slot: Slot<u32> = Slot::new();
    slot.register(1);
    let taken = slot.take().unwrap();
    slot.restore(taken);
    assert_eq!(slot.take(), Some(1));
}

#[test]
fn slot_restore_yields_to_a_newer_registration() {
    let mut slot: Slot<u32> = Slot::new();
    slot.register(1);
    let taken = slot.take().unwrap();
    slot.register(2);
    slot.restore(taken);
    assert_eq!(slot.take(), Some(2));
}
