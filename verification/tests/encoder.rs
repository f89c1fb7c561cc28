use critical_section::RestoreState;
use usb_edge_bridge::encoder::EncoderFault;
use usb_edge_bridge::encoder::FrameEncoder;
use usb_edge_bridge::mailbox::signal_bytes;
use usb_edge_bridge::mailbox::SignalMailbox;

#[test]
fn new_encoder_is_free() {
    let encoder = FrameEncoder::new();
    assert!(!encoder.is_held());
}

#[test]
fn acquire_holds_and_release_frees() {
    let mut mailbox = SignalMailbox::new();
    let mut encoder = FrameEncoder::new();
    encoder.acquire(RestoreState::invalid(), &mut mailbox);
    assert!(encoder.is_held());
    encoder.write(&[1, 2], &mut mailbox);
    encoder.flush();
    assert!(encoder.is_held());
    let _token = encoder.release(&mut mailbox);
    assert!(!encoder.is_held());
}

#[test]
fn release_hands_back_the_stored_token() {
    let mut mailbox = SignalMailbox::new();
    let mut encoder = FrameEncoder::new();
    let token = RestoreState::invalid();
    encoder.acquire(token, &mut mailbox);
    let back = encoder.release(&mut mailbox);
    assert_eq!(format!("{:?}", back), format!("{:?}", token));
}

#[test]
fn first_acquire_signals_the_frame_separator() {
    let mut mailbox = SignalMailbox::new();
    let mut encoder = FrameEncoder::new();
    encoder.acquire(RestoreState::invalid(), &mut mailbox);
    let packet = mailbox.try_wait().expect("the separator was signaled");
    assert_eq!(packet.get_data(), &[0u8][..]);
}

#[test]
fn later_acquire_signals_nothing() {
    let mut mailbox = SignalMailbox::new();
    let mut encoder = FrameEncoder::new();
    encoder.acquire(RestoreState::invalid(), &mut mailbox);
    let _token = encoder.release(&mut mailbox);
    assert!(mailbox.try_wait().is_some());

    encoder.acquire(RestoreState::invalid(), &mut mailbox);
    assert!(mailbox.try_wait().is_none());

    let _token = encoder.release(&mut mailbox);
    signal_bytes(&mut mailbox, b"kept");
    encoder.acquire(RestoreState::invalid(), &mut mailbox);
    let packet = mailbox.try_wait().expect("the earlier message stays");
    assert_eq!(packet.get_data(), b"kept");
}

#[test]
fn write_signals_one_encoded_byte_at_a_time() {
    let mut mailbox = SignalMailbox::new();
    let mut encoder = FrameEncoder::new();
    encoder.acquire(RestoreState::invalid(), &mut mailbox);
    encoder.write(&[7, 0, 9], &mut mailbox);
    let packet = mailbox.try_wait().expect("encoded bytes were signaled");
    assert_eq!(packet.get_data(), &[9u8][..]);
}

#[test]
fn write_of_nothing_signals_nothing() {
    let mut mailbox = SignalMailbox::new();
    let mut encoder = FrameEncoder::new();
    encoder.acquire(RestoreState::invalid(), &mut mailbox);
    assert!(mailbox.try_wait().is_some());
    encoder.write(&[], &mut mailbox);
    assert!(mailbox.try_wait().is_none());
}

#[test]
fn release_leaves_the_frame_separator() {
    let mut mailbox = SignalMailbox::new();
    let mut encoder = FrameEncoder::new();
    encoder.acquire(RestoreState::invalid(), &mut mailbox);
    encoder.write(&[7, 0, 9], &mut mailbox);
    let _token = encoder.release(&mut mailbox);
    let packet = mailbox.try_wait().expect("the separator was signaled");
    assert_eq!(packet.get_data(), &[0u8][..]);
}

#[test]
fn second_acquire_is_refused_as_reentrant() {
    let mut mailbox = SignalMailbox::new();
    let mut encoder = FrameEncoder::new();
    assert_eq!(encoder.try_acquire(RestoreState::invalid(), &mut mailbox), Ok(()));
    assert!(mailbox.try_wait().is_some());
    assert_eq!(
        encoder.try_acquire(RestoreState::invalid(), &mut mailbox),
        Err(EncoderFault::Reentrant)
    );
    assert!(encoder.is_held());
    assert!(mailbox.try_wait().is_none());
}

#[test]
fn second_acquire_is_refused_after_writes_too() {
    let mut mailbox = SignalMailbox::new();
    let mut encoder = FrameEncoder::new();
    assert_eq!(encoder.try_acquire(RestoreState::invalid(), &mut mailbox), Ok(()));
    encoder.write(&[1], &mut mailbox);
    encoder.write(&[2, 3], &mut mailbox);
    assert_eq!(
        encoder.try_acquire(RestoreState::invalid(), &mut mailbox),
        Err(EncoderFault::Reentrant)
    );
}

#[test]
fn release_without_acquire_is_refused() {
    let mut mailbox = SignalMailbox::new();
    let mut encoder = FrameEncoder::new();
    assert!(matches!(encoder.try_release(&mut mailbox), Err(EncoderFault::OutOfContext)));
    assert!(!encoder.is_held());
    assert!(mailbox.try_wait().is_none());
}

#[test]
fn second_release_is_refused() {
    let mut mailbox = SignalMailbox::new();
    let mut encoder = FrameEncoder::new();
    assert_eq!(encoder.try_acquire(RestoreState::invalid(), &mut mailbox), Ok(()));
    assert!(encoder.try_release(&mut mailbox).is_ok());
    assert!(mailbox.try_wait().is_some());
    assert!(matches!(encoder.try_release(&mut mailbox), Err(EncoderFault::OutOfContext)));
    assert!(mailbox.try_wait().is_none());
}

#[test]
fn sessions_follow_one_another() {
    let mut mailbox = SignalMailbox::new();
    let mut encoder = FrameEncoder::new();
    for round in 0..3u8 {
        assert_eq!(encoder.try_acquire(RestoreState::invalid(), &mut mailbox), Ok(()));
        encoder.write(&[round, round + 1], &mut mailbox);
        encoder.write(&[0], &mut mailbox);
        assert!(encoder.try_release(&mut mailbox).is_ok());
        assert!(!encoder.is_held());
        let packet = mailbox.try_wait().expect("the separator was signaled");
        assert_eq!(packet.get_data(), &[0u8][..]);
    }
}

#[test]
fn write_never_signals_a_separator() {
    let mut mailbox = SignalMailbox::new();
    let mut encoder = FrameEncoder::new();
    encoder.acquire(RestoreState::invalid(), &mut mailbox);
    assert!(mailbox.try_wait().is_some());
    let writes: [&[u8]; 6] = [&[0], &[1, 2, 3], &[0, 0, 0, 0, 0, 0], &[0, 5], &[9; 40], &[0; 9]];
    for data in writes {
        encoder.write(data, &mut mailbox);
        if let Some(packet) = mailbox.try_wait() {
            assert_eq!(packet.get_data().len(), 1);
            assert_ne!(packet.get_data()[0], 0);
        }
    }
    let _token = encoder.release(&mut mailbox);
    let packet = mailbox.try_wait().expect("the separator was signaled");
    assert_eq!(packet.get_data(), &[0u8][..]);
}

#[test]
fn write_signals_the_last_encoded_byte() {
    let mut mailbox = SignalMailbox::new();
    let mut encoder = FrameEncoder::new();
    encoder.acquire(RestoreState::invalid(), &mut mailbox);
    assert!(mailbox.try_wait().is_some());
    // Six data bytes and a zero complete a symbol, whose last byte says
    // which of the seven were zero.
    encoder.write(&[0x11, 0x22, 0x33, 0x44, 0x55, 0x66, 0x00], &mut mailbox);
    let packet = mailbox.try_wait().expect("encoded bytes were signaled");
    assert_eq!(packet.get_data(), &[0x40u8][..]);
    // A lone zero byte is held back until the symbol ends.
    encoder.write(&[0x00], &mut mailbox);
    assert!(mailbox.try_wait().is_none());
    let _token = encoder.release(&mut mailbox);
    let packet = mailbox.try_wait().expect("the separator was signaled");
    assert_eq!(packet.get_data(), &[0u8][..]);
}
