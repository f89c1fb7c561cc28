use usb_edge_bridge::mailbox::signal_bytes;
use usb_edge_bridge::mailbox::signal_chunks;
use usb_edge_bridge::mailbox::SignalMailbox;
use usb_edge_bridge::packet::Packet;

#[test]
fn new_mailbox_is_empty() {
    let mut mailbox = SignalMailbox::new();
    assert!(mailbox.try_wait().is_none());
    assert!(mailbox.try_wait().is_none());
}

#[test]
fn signal_then_wait_returns_the_message() {
    let mut mailbox = SignalMailbox::new();
    signal_bytes(&mut mailbox, &[1, 2, 3]);
    let packet = mailbox.try_wait().expect("a message was signaled");
    assert_eq!(packet.get_data(), &[1u8, 2, 3][..]);
}

#[test]
fn wait_clears_the_slot() {
    let mut mailbox = SignalMailbox::new();
    mailbox.signal(Packet::from(&[7]));
    assert!(mailbox.try_wait().is_some());
    assert!(mailbox.try_wait().is_none());
}

#[test]
fn second_signal_overwrites_the_first() {
    let mut mailbox = SignalMailbox::new();
    signal_bytes(&mut mailbox, b"first");
    signal_bytes(&mut mailbox, b"second");
    let packet = mailbox.try_wait().expect("a message was signaled");
    assert_eq!(packet.get_data(), b"second");
    assert!(mailbox.try_wait().is_none());
}

#[test]
fn wait_before_signal_yields_nothing_until_signaled() {
    let mut mailbox = SignalMailbox::new();
    assert!(mailbox.try_wait().is_none());
    signal_bytes(&mut mailbox, b"late");
    let packet = mailbox.try_wait().expect("a message was signaled");
    assert_eq!(packet.get_data(), b"late");
}

#[test]
fn round_trip_keeps_content_and_length() {
    let mut mailbox = SignalMailbox::new();
    let mut full = [0u8; 64];
    for (i, byte) in full.iter_mut().enumerate() {
        *byte = i as u8;
    }
    let messages: [&[u8]; 4] = [&[], &[0], &[0, 0, 255, 0], &full];
    for message in messages {
        signal_bytes(&mut mailbox, message);
        let packet = mailbox.try_wait().expect("a message was signaled");
        assert_eq!(packet.get_data(), message);
        assert_eq!(packet.get_data().len(), message.len());
    }
}

#[test]
fn an_empty_message_is_still_a_message() {
    let mut mailbox = SignalMailbox::new();
    signal_bytes(&mut mailbox, &[]);
    let packet = mailbox.try_wait().expect("the empty message was signaled");
    assert!(packet.get_data().is_empty());
}

#[test]
fn no_chunks_leave_the_mailbox_alone() {
    let mut mailbox = SignalMailbox::new();
    signal_chunks(&mut mailbox, &vec![]);
    assert!(mailbox.try_wait().is_none());
    signal_bytes(&mut mailbox, &[5]);
    signal_chunks(&mut mailbox, &vec![]);
    let packet = mailbox.try_wait().expect("the earlier message stays");
    assert_eq!(packet.get_data(), &[5u8][..]);
}

#[test]
fn last_chunk_is_what_the_mailbox_holds() {
    let mut mailbox = SignalMailbox::new();
    signal_bytes(&mut mailbox, &[5]);
    signal_chunks(&mut mailbox, &vec![vec![1], vec![2, 3], vec![4]]);
    let packet = mailbox.try_wait().expect("chunks were signaled");
    assert_eq!(packet.get_data(), &[4u8][..]);
    assert!(mailbox.try_wait().is_none());
}
