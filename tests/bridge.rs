use webrtc_socket::bridge::{Bridge, BridgeAction, BridgeEvent, READ_BUFFER_SIZE};

fn data(conn: u64, b: &[u8]) -> BridgeEvent {
    BridgeEvent::LocalData { conn, bytes: b.to_vec() }
}

#[test]
fn second_connection_binds_after_first_ends() {
    let mut b = Bridge::new();
    let out = b.handle(BridgeEvent::Accepted(1));
    assert!(matches!(out[..], [BridgeAction::Start(1)]));
    let out = b.handle(BridgeEvent::Accepted(2));
    assert!(out.is_empty());
    assert_eq!(b.active(), Some(1));

    assert!(b.handle(data(2, b"second")).is_empty());
    let out = b.handle(data(1, b"first"));
    assert!(matches!(&out[..], [BridgeAction::WriteChannel(x)] if x == b"first"));

    let out = b.handle(BridgeEvent::ChannelEnded(1));
    assert!(matches!(out[..], [BridgeAction::ShutdownLocalWrite(1), BridgeAction::Release(1), BridgeAction::Start(2)]));
    assert_eq!(b.active(), Some(2));
    assert!(b.handle(data(1, b"late")).is_empty());
    let out = b.handle(data(2, b"second"));
    assert!(matches!(&out[..], [BridgeAction::WriteChannel(x)] if x == b"second"));

    let out = b.handle(BridgeEvent::Failed(2));
    assert!(matches!(out[..], [BridgeAction::Release(2)]));
    assert_eq!(b.active(), None);
}

#[test]
fn local_half_close_keeps_channel_open_and_delivering() {
    let mut b = Bridge::new();
    b.handle(BridgeEvent::Accepted(7));
    let out = b.handle(BridgeEvent::LocalEnded(7));
    assert!(matches!(out[..], [BridgeAction::FlushChannel]));
    assert_eq!(b.active(), Some(7));
    let out = b.handle(BridgeEvent::ChannelData { conn: 7, bytes: b"from remote".to_vec() });
    assert!(matches!(&out[..], [BridgeAction::WriteLocal { conn: 7, bytes }] if bytes == b"from remote"));
    assert!(b.handle(data(7, b"after eof")).is_empty());
    assert!(b.handle(BridgeEvent::LocalEnded(7)).is_empty());
}

#[test]
fn read_buffer_fits_large_chunks() {
    assert!(READ_BUFFER_SIZE >= 32 * 1024);
}
