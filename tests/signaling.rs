use webxash3d_metamod::{
    candidate_frame, offer_frame, signal_kind, BridgeAction, Bridge, CandidateOutcome,
    ChannelOpenCounter, ChannelRole, IgnoreReason, Received, SessionAction, SignalKind,
    SignalMessage, SignalingError, SignalingSession, SignalingState,
};

fn message(event: &str, data: &str) -> SignalMessage {
    SignalMessage { event: event.to_string(), data: serde_json::from_str(data).unwrap() }
}

fn offered() -> SignalingSession {
    let mut s = SignalingSession::new("127.0.0.1:5000-1".to_string());
    match s.on_offer("v=0") {
        SessionAction::Send(_) => {}
        _ => panic!("expected the offer frame"),
    }
    s
}

#[test]
fn event_kinds() {
    assert_eq!(signal_kind("offer"), SignalKind::Offer);
    assert_eq!(signal_kind("answer"), SignalKind::Answer);
    assert_eq!(signal_kind("candidate"), SignalKind::Candidate);
    assert_eq!(signal_kind("Answer"), SignalKind::Other);
    assert_eq!(signal_kind(""), SignalKind::Other);
}

#[test]
fn offer_frame_text() {
    assert_eq!(
        offer_frame("\"x\""),
        r#"{"event":"offer","data":{"sdp":"x","type":"offer"}}"#
    );
}

#[test]
fn offer_is_sent_with_escaped_description() {
    let mut s = SignalingSession::new("c".to_string());
    assert_eq!(s.state(), SignalingState::Created);
    match s.on_offer("v=0\r\no=- \"q\"") {
        SessionAction::Send(t) => assert_eq!(
            t,
            r#"{"event":"offer","data":{"sdp":"v=0\r\no=- \"q\"","type":"offer"}}"#
        ),
        _ => panic!("expected the offer frame"),
    }
    assert_eq!(s.state(), SignalingState::OfferSent);
    assert!(matches!(s.on_offer("v=0"), SessionAction::Idle));
}

#[test]
fn offer_that_cannot_be_written_ends_session() {
    let mut s = SignalingSession::new("c".to_string());
    match s.on_offer_quoted(None) {
        SessionAction::End { shutdown_bridge, error } => {
            assert!(!shutdown_bridge);
            assert_eq!(error, Some(SignalingError::OfferEncoding));
        }
        _ => panic!("expected the end"),
    }
    assert_eq!(s.state(), SignalingState::Closed);
}

#[test]
fn local_candidates_are_framed_and_end_mark_dropped() {
    let mut s = offered();
    assert_eq!(candidate_frame("{\"candidate\":\"a\"}"), r#"{"event":"candidate","data":{"candidate":"a"}}"#);
    match s.on_local_candidate(Some("{\"candidate\":\"a\"}")) {
        SessionAction::Send(t) => assert_eq!(t, r#"{"event":"candidate","data":{"candidate":"a"}}"#),
        _ => panic!("expected a candidate frame"),
    }
    assert!(matches!(s.on_local_candidate(None), SessionAction::Idle));
}

#[test]
fn answer_is_applied() {
    let mut s = offered();
    match s.on_message(message("answer", "{\"sdp\":\"v=0...\"}")) {
        SessionAction::ApplyAnswer(sdp) => assert_eq!(sdp, "v=0..."),
        _ => panic!("expected the answer to be applied"),
    }
    assert!(matches!(s.on_answer_applied(true), SessionAction::Idle));
    assert_eq!(s.state(), SignalingState::AnswerApplied);
}

#[test]
fn malformed_answer_ends_session() {
    let mut s = offered();
    match s.on_message(message("answer", "{\"type\":\"answer\"}")) {
        SessionAction::End { error, .. } => assert_eq!(error, Some(SignalingError::MalformedAnswer)),
        _ => panic!("expected the end"),
    }
    assert_eq!(s.state(), SignalingState::Closed);
    let mut s = offered();
    assert!(s.on_message(message("answer", "{\"sdp\":5}")).is_end());
    let mut s = offered();
    assert!(s.on_message(message("answer", "\"v=0\"")).is_end());
}

#[test]
fn rejected_answer_ends_session() {
    let mut s = offered();
    assert!(matches!(s.on_message(message("answer", "{\"sdp\":\"junk\"}")), SessionAction::ApplyAnswer(_)));
    match s.on_answer_applied(false) {
        SessionAction::End { error, .. } => assert_eq!(error, Some(SignalingError::AnswerRejected)),
        _ => panic!("expected the end"),
    }
}

#[test]
fn answer_before_offer_ends_session() {
    let mut s = SignalingSession::new("c".to_string());
    match s.on_message(message("answer", "{\"sdp\":\"v=0\"}")) {
        SessionAction::End { error, .. } => assert_eq!(error, Some(SignalingError::NoActiveSession)),
        _ => panic!("expected the end"),
    }
}

#[test]
fn malformed_candidate_does_not_end_session() {
    let mut s = offered();
    assert!(matches!(s.on_message(message("candidate", "42")), SessionAction::AddCandidate(_)));
    assert!(matches!(
        s.on_candidate_done(CandidateOutcome::Malformed),
        SessionAction::Ignore(IgnoreReason::MalformedCandidate)
    ));
    assert_eq!(s.state(), SignalingState::OfferSent);
    assert!(matches!(s.on_candidate_done(CandidateOutcome::Added), SessionAction::Idle));
    match s.on_message(message("answer", "{\"sdp\":\"v=0\"}")) {
        SessionAction::ApplyAnswer(sdp) => assert_eq!(sdp, "v=0"),
        _ => panic!("the session should still take the answer"),
    }
}

#[test]
fn refused_candidate_ends_session() {
    let mut s = offered();
    match s.on_candidate_done(CandidateOutcome::Failed) {
        SessionAction::End { error, .. } => assert_eq!(error, Some(SignalingError::CandidateRejected)),
        _ => panic!("expected the end"),
    }
}

#[test]
fn unknown_events_and_bad_frames_are_ignored() {
    let mut s = offered();
    assert!(matches!(
        s.on_message(message("hello", "null")),
        SessionAction::Ignore(IgnoreReason::UnknownEvent)
    ));
    assert!(matches!(
        s.on_message(message("offer", "{}")),
        SessionAction::Ignore(IgnoreReason::UnknownEvent)
    ));
    assert!(matches!(s.on_invalid_frame(), SessionAction::Ignore(IgnoreReason::InvalidFrame)));
    assert_eq!(s.state(), SignalingState::OfferSent);
}

#[test]
fn transport_end_stops_bridge() {
    let mut s = offered();
    assert!(matches!(s.on_bridge_started(true), SessionAction::Idle));
    assert!(s.has_bridge());
    assert_eq!(s.state(), SignalingState::Bridging);
    match s.on_transport_error() {
        SessionAction::End { shutdown_bridge, error } => {
            assert!(shutdown_bridge);
            assert_eq!(error, Some(SignalingError::Transport));
        }
        _ => panic!("expected the end"),
    }
    assert!(!s.has_bridge());
    assert!(matches!(s.on_transport_closed(), SessionAction::Idle));
    assert!(matches!(s.on_bridge_started(true), SessionAction::ShutdownBridge));
}

#[test]
fn close_without_bridge() {
    let mut s = offered();
    match s.on_transport_closed() {
        SessionAction::End { shutdown_bridge, error } => {
            assert!(!shutdown_bridge);
            assert_eq!(error, None);
        }
        _ => panic!("expected the end"),
    }
    assert_eq!(s.client_id(), "127.0.0.1:5000-1");
}

#[test]
fn second_bridge_is_stopped() {
    let mut s = offered();
    assert!(matches!(s.on_bridge_started(false), SessionAction::Idle));
    assert!(!s.has_bridge());
    assert!(matches!(s.on_bridge_started(true), SessionAction::Idle));
    assert!(matches!(s.on_bridge_started(true), SessionAction::ShutdownBridge));
}

#[test]
fn end_to_end_session() {
    let mut session = offered();
    match session.on_message(message("answer", "{\"sdp\":\"v=0...\"}")) {
        SessionAction::ApplyAnswer(sdp) => assert_eq!(sdp, "v=0..."),
        _ => panic!("expected the answer to be applied"),
    }
    assert!(!session.on_answer_applied(true).is_end());

    let mut gate = ChannelOpenCounter::new();
    let mut bridges_built = 0;
    for role in [ChannelRole::Inbound, ChannelRole::Outbound] {
        if gate.record_open(role) {
            bridges_built += 1;
            assert!(matches!(session.on_bridge_started(true), SessionAction::Idle));
        }
    }
    assert_eq!(bridges_built, 1);
    assert_eq!(session.state(), SignalingState::Bridging);

    let mut bridge = Bridge::new();
    match bridge.on_inbound_message(&[0x01, 0x02, 0x03]) {
        BridgeAction::SendUdp(v) => assert_eq!(v, vec![0x01, 0x02, 0x03]),
        _ => panic!("expected a UDP send"),
    }
    let buf = vec![0xAA, 0xBB, 0x00, 0x00];
    match bridge.on_udp_receive(&buf, Received::Datagram(2)) {
        BridgeAction::SendOutbound(b) => assert_eq!(&b[..], &[0xAA, 0xBB]),
        _ => panic!("expected an outbound message"),
    }
    assert!(matches!(bridge.on_inbound_closed(), BridgeAction::Fire));
    assert!(matches!(bridge.on_inbound_closed(), BridgeAction::Idle));
    let a = bridge.on_udp_receive(&buf, Received::Datagram(4));
    assert!(matches!(a, BridgeAction::Stop));
    assert!(!a.keeps_receiving());

    match session.on_transport_closed() {
        SessionAction::End { shutdown_bridge, .. } => assert!(shutdown_bridge),
        _ => panic!("expected the end"),
    }
}

#[test]
fn offer_escapes_control_characters() {
    let mut s = SignalingSession::new("c".to_string());
    match s.on_offer("a\tb\u{1}\u{1f}\\é\u{7f}") {
        SessionAction::Send(t) => assert_eq!(
            t,
            "{\"event\":\"offer\",\"data\":{\"sdp\":\"a\\tb\\u0001\\u001f\\\\é\u{7f}\",\"type\":\"offer\"}}"
        ),
        _ => panic!("expected the offer frame"),
    }
}
