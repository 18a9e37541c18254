use webxash3d_metamod::{Bridge, BridgeAction, Received, MAX_PACKET_SIZE};

#[test]
fn inbound_bytes_go_to_udp_unchanged() {
    let b = Bridge::new();
    match b.on_inbound_message(&[0x01, 0x02, 0x03]) {
        BridgeAction::SendUdp(v) => assert_eq!(v, vec![0x01, 0x02, 0x03]),
        _ => panic!("expected a UDP send"),
    }
    match b.on_inbound_message(&[]) {
        BridgeAction::SendUdp(v) => assert!(v.is_empty()),
        _ => panic!("expected a UDP send"),
    }
}

#[test]
fn datagram_goes_to_outbound_unchanged() {
    let mut b = Bridge::new();
    let mut buf = vec![0u8; MAX_PACKET_SIZE];
    buf[0] = 0xAA;
    buf[1] = 0xBB;
    buf[2] = 0xCC;
    match b.on_udp_receive(&buf, Received::Datagram(2)) {
        BridgeAction::SendOutbound(bytes) => assert_eq!(&bytes[..], &[0xAA, 0xBB]),
        _ => panic!("expected an outbound message"),
    }
    assert!(!b.is_shut_down());
}

#[test]
fn empty_datagram_is_skipped() {
    let mut b = Bridge::new();
    let buf = vec![7u8; 16];
    let a = b.on_udp_receive(&buf, Received::Datagram(0));
    assert!(matches!(a, BridgeAction::Idle));
    assert!(a.keeps_receiving());
    assert!(!b.is_shut_down());
}

#[test]
fn receive_failure_fires_shutdown() {
    let mut b = Bridge::new();
    let a = b.on_udp_receive(&[], Received::Failed);
    assert!(matches!(a, BridgeAction::Fire));
    assert!(!a.keeps_receiving());
    assert!(b.is_shut_down());
    assert!(matches!(b.on_udp_receive(&[], Received::Failed), BridgeAction::Stop));
}

#[test]
fn nothing_is_sent_after_shutdown() {
    let mut b = Bridge::new();
    assert!(matches!(b.on_inbound_closed(), BridgeAction::Fire));
    let buf = vec![1u8, 2, 3];
    assert!(matches!(b.on_udp_receive(&buf, Received::Datagram(3)), BridgeAction::Stop));
    assert!(matches!(b.on_inbound_message(&buf), BridgeAction::Idle));
}

#[test]
fn second_fire_is_a_no_op() {
    let mut b = Bridge::new();
    assert!(matches!(b.on_inbound_error(), BridgeAction::Fire));
    assert!(matches!(b.shutdown(), BridgeAction::Idle));
    assert!(matches!(b.on_inbound_closed(), BridgeAction::Idle));
    assert!(matches!(b.on_inbound_error(), BridgeAction::Idle));
    assert!(b.is_shut_down());
}

#[test]
fn teardown_fires_once() {
    let mut b = Bridge::new();
    assert!(matches!(b.shutdown(), BridgeAction::Fire));
    assert!(matches!(b.shutdown(), BridgeAction::Idle));
}
