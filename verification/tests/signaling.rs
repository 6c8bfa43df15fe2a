use screenshare_agent::signaling::{
    DeviceInfo, Envelope, EnvelopeKind, JoinRequest, LinkAction, Role, SignalingClient,
    SignalingError, SignalingFault, INITIAL_BACKOFF_MS, MAX_DIAL_ATTEMPTS,
};

fn host_request() -> JoinRequest {
    JoinRequest {
        session_id: "ABCD1234".to_string(),
        user_id: "host-1".to_string(),
        role: Role::Host,
    }
}

fn host_membership() -> (Option<String>, Option<String>, Option<Role>) {
    (Some("ABCD1234".to_string()), Some("host-1".to_string()), Some(Role::Host))
}

fn connected_member() -> SignalingClient {
    let mut client = SignalingClient::new("ws://localhost:3001/signaling").unwrap();
    assert_eq!(client.connect(), LinkAction::Dial { delay_ms: 0 });
    assert_eq!(client.dial_finished(true), Ok(LinkAction::Idle));
    let action = client.join_session("ABCD1234", "host-1", Role::Host);
    assert_eq!(action, LinkAction::Send(join_envelope()));
    client
}

fn join_envelope() -> Envelope {
    Envelope {
        kind: EnvelopeKind::Join,
        session_id: Some("ABCD1234".to_string()),
        from_id: Some("host-1".to_string()),
        to_id: None,
        payload: "host".to_string(),
    }
}

fn inbound(kind: EnvelopeKind, session: &str, from: &str, to: Option<&str>) -> Envelope {
    Envelope {
        kind,
        session_id: Some(session.to_string()),
        from_id: Some(from.to_string()),
        to_id: to.map(|t| t.to_string()),
        payload: "payload".to_string(),
    }
}

#[test]
fn new_client_has_no_link_and_no_membership() {
    let client = SignalingClient::new("ws://example/signaling").unwrap();
    assert_eq!(client.server_url, "ws://example/signaling");
    assert!(!client.is_connected());
    assert_eq!(client.get_session_info(), (None, None, None));
    assert_eq!(client.failed_dials, 0);
    assert_eq!(client.pending_join, None);
    assert_eq!(client.previous, None);
}

#[test]
fn wire_names_round_trip() {
    assert_eq!(Role::Host.wire_name(), "host");
    assert_eq!(Role::Viewer.wire_name(), "viewer");
    assert_eq!(Role::from_wire_name("host"), Some(Role::Host));
    assert_eq!(Role::from_wire_name("viewer"), Some(Role::Viewer));
    assert_eq!(Role::from_wire_name("Host"), None);
    let kinds = [
        (EnvelopeKind::Join, "join"),
        (EnvelopeKind::Leave, "leave"),
        (EnvelopeKind::Offer, "offer"),
        (EnvelopeKind::Answer, "answer"),
        (EnvelopeKind::Candidate, "candidate"),
        (EnvelopeKind::Error, "error"),
    ];
    for (kind, name) in kinds {
        assert_eq!(kind.wire_name(), name);
        assert_eq!(EnvelopeKind::from_wire_name(name), Some(kind));
    }
}

#[test]
fn unknown_envelope_types_are_no_type() {
    assert_eq!(EnvelopeKind::from_wire_name("ping"), None);
    assert_eq!(EnvelopeKind::from_wire_name(""), None);
    assert_eq!(EnvelopeKind::from_wire_name("JOIN"), None);
}

#[test]
fn connect_with_a_link_does_nothing() {
    let mut client = connected_member();
    client.failed_dials = 2;
    assert_eq!(client.connect(), LinkAction::Idle);
    assert_eq!(client.failed_dials, 2);
    assert!(client.is_connected());
}

#[test]
fn dials_back_off_and_give_up_after_three() {
    assert_eq!(MAX_DIAL_ATTEMPTS, 3);
    assert_eq!(INITIAL_BACKOFF_MS, 500);
    let mut client = SignalingClient::new("ws://x").unwrap();
    assert_eq!(client.connect(), LinkAction::Dial { delay_ms: 0 });
    assert_eq!(client.dial_finished(false), Ok(LinkAction::Dial { delay_ms: 500 }));
    assert_eq!(client.failed_dials, 1);
    assert_eq!(client.dial_finished(false), Ok(LinkAction::Dial { delay_ms: 1000 }));
    assert_eq!(client.failed_dials, 2);
    assert_eq!(
        client.dial_finished(false),
        Err(SignalingError { kind: SignalingFault::Unreachable })
    );
    assert_eq!(client.failed_dials, 3);
    assert!(!client.is_connected());
    // a new run starts from the beginning
    assert_eq!(client.connect(), LinkAction::Dial { delay_ms: 0 });
    assert_eq!(client.failed_dials, 0);
    assert_eq!(client.dial_finished(false), Ok(LinkAction::Dial { delay_ms: 500 }));
    assert_eq!(client.dial_finished(true), Ok(LinkAction::Idle));
    assert!(client.is_connected());
    assert_eq!(client.failed_dials, 0);
}

#[test]
fn dial_result_over_a_link_is_ignored() {
    let mut client = connected_member();
    assert_eq!(client.dial_finished(false), Ok(LinkAction::Idle));
    assert_eq!(client.dial_finished(true), Ok(LinkAction::Idle));
    assert!(client.is_connected());
    assert_eq!(client.failed_dials, 0);
}

#[test]
fn join_without_a_link_dials_first_and_announces_then() {
    let mut client = SignalingClient::new("ws://x").unwrap();
    let action = client.join_session("ABCD1234", "host-1", Role::Host);
    assert_eq!(action, LinkAction::Dial { delay_ms: 0 });
    // the join waits, and the client is no member yet
    assert_eq!(client.pending_join, Some(host_request()));
    assert_eq!(client.get_session_info(), (None, None, None));
    assert_eq!(client.dial_finished(false), Ok(LinkAction::Dial { delay_ms: 500 }));
    assert_eq!(client.pending_join, Some(host_request()));
    assert_eq!(client.dial_finished(true), Ok(LinkAction::Send(join_envelope())));
    assert_eq!(client.pending_join, None);
    assert_eq!(client.get_session_info(), host_membership());
    assert_eq!(client.previous, None);
    assert!(client.is_connected());
}

#[test]
fn join_over_a_link_makes_the_member_at_once() {
    let mut client = SignalingClient::new("ws://x").unwrap();
    client.connect();
    client.dial_finished(true).unwrap();
    client.failed_dials = 1;
    let action = client.join_session("ABCD1234", "host-1", Role::Host);
    assert_eq!(action, LinkAction::Send(join_envelope()));
    assert_eq!(client.get_session_info(), host_membership());
    assert_eq!(client.pending_join, None);
    assert_eq!(client.previous, None);
    assert_eq!(client.failed_dials, 1);
}

#[test]
fn join_that_never_gets_a_link_leaves_the_membership_that_was() {
    let mut client = connected_member();
    assert_eq!(client.link_dropped(), LinkAction::Dial { delay_ms: 0 });
    let action = client.join_session("ZZZZ9999", "host-2", Role::Viewer);
    assert_eq!(action, LinkAction::Dial { delay_ms: 0 });
    assert_eq!(client.get_session_info(), host_membership());
    assert_eq!(client.dial_finished(false), Ok(LinkAction::Dial { delay_ms: 500 }));
    assert_eq!(client.dial_finished(false), Ok(LinkAction::Dial { delay_ms: 1000 }));
    assert_eq!(
        client.dial_finished(false),
        Err(SignalingError { kind: SignalingFault::NotConnected })
    );
    assert_eq!(client.get_session_info(), host_membership());
    assert_eq!(client.pending_join, None);
    assert!(!client.is_connected());
    // the member it still is announces itself again when a link is there
    assert_eq!(client.connect(), LinkAction::Dial { delay_ms: 0 });
    assert_eq!(client.dial_finished(true), Ok(LinkAction::Send(join_envelope())));
}

#[test]
fn join_that_waited_takes_the_place_of_the_membership_when_the_dial_gets_through() {
    let mut client = connected_member();
    client.link_dropped();
    client.join_session("ZZZZ9999", "host-2", Role::Viewer);
    let sent = client.dial_finished(true).unwrap();
    assert_eq!(
        sent,
        LinkAction::Send(Envelope {
            kind: EnvelopeKind::Join,
            session_id: Some("ZZZZ9999".to_string()),
            from_id: Some("host-2".to_string()),
            to_id: None,
            payload: "viewer".to_string(),
        })
    );
    assert_eq!(
        client.get_session_info(),
        (Some("ZZZZ9999".to_string()), Some("host-2".to_string()), Some(Role::Viewer))
    );
    assert_eq!(client.previous, Some(host_request()));
    assert_eq!(client.pending_join, None);
}

#[test]
fn join_that_the_service_refuses_leaves_the_membership_that_was() {
    let mut client = connected_member();
    client.join_session("ZZZZ9999", "host-2", Role::Viewer);
    assert_eq!(client.previous, Some(host_request()));
    let refusal = inbound(EnvelopeKind::Error, "ZZZZ9999", "service", Some("host-2"));
    assert_eq!(
        client.on_envelope(refusal),
        Err(SignalingError { kind: SignalingFault::Rejected })
    );
    assert_eq!(client.get_session_info(), host_membership());
    assert_eq!(client.previous, None);
    assert!(client.is_connected());
}

#[test]
fn join_that_never_gets_a_link_fails_as_not_connected() {
    let mut client = SignalingClient::new("ws://x").unwrap();
    client.join_session("ABCD1234", "host-1", Role::Host);
    client.dial_finished(false).unwrap();
    client.dial_finished(false).unwrap();
    assert_eq!(
        client.dial_finished(false),
        Err(SignalingError { kind: SignalingFault::NotConnected })
    );
    assert_eq!(client.get_session_info(), (None, None, None));
    assert!(!client.is_connected());
}

#[test]
fn dropped_link_of_a_member_reconnects_under_the_same_ids() {
    let mut client = connected_member();
    assert_eq!(client.link_dropped(), LinkAction::Dial { delay_ms: 0 });
    assert!(!client.is_connected());
    assert_eq!(client.dial_finished(false), Ok(LinkAction::Dial { delay_ms: 500 }));
    assert_eq!(client.dial_finished(true), Ok(LinkAction::Send(join_envelope())));
    assert!(client.is_connected());
}

#[test]
fn reconnection_that_fails_is_unreachable_and_keeps_the_membership() {
    let mut client = connected_member();
    client.link_dropped();
    client.dial_finished(false).unwrap();
    client.dial_finished(false).unwrap();
    assert_eq!(
        client.dial_finished(false),
        Err(SignalingError { kind: SignalingFault::Unreachable })
    );
    assert_eq!(
        client.get_session_info(),
        (Some("ABCD1234".to_string()), Some("host-1".to_string()), Some(Role::Host))
    );
}

#[test]
fn dropped_link_without_membership_is_left_alone() {
    let mut client = SignalingClient::new("ws://x").unwrap();
    assert_eq!(client.link_dropped(), LinkAction::Idle);
    client.connect();
    client.dial_finished(true).unwrap();
    assert_eq!(client.link_dropped(), LinkAction::Idle);
    assert!(!client.is_connected());
}

#[test]
fn sending_needs_a_link() {
    let client = SignalingClient::new("ws://x").unwrap();
    let not_connected = SignalingError { kind: SignalingFault::NotConnected };
    assert_eq!(client.send_offer("viewer-1", "o"), Err(not_connected));
    assert_eq!(client.send_answer("viewer-1", "a"), Err(not_connected));
    assert_eq!(client.send_ice_candidate("viewer-1", "c"), Err(not_connected));
    assert_eq!(not_connected.message(), "Not connected to signaling server");
    assert_eq!(not_connected.describe(), "SignalingError: Not connected to signaling server");
}

#[test]
fn fault_messages() {
    let unreachable = SignalingError { kind: SignalingFault::Unreachable };
    let rejected = SignalingError { kind: SignalingFault::Rejected };
    assert_eq!(unreachable.message(), "Signaling server is unreachable");
    assert_eq!(rejected.message(), "Signaling server rejected the session");
    assert_eq!(rejected.describe(), "SignalingError: Signaling server rejected the session");
}

#[test]
fn sent_envelopes_carry_membership_target_and_payload() {
    let client = connected_member();
    let offer = client.send_offer("viewer-1", "the offer").unwrap();
    assert_eq!(
        offer,
        Envelope {
            kind: EnvelopeKind::Offer,
            session_id: Some("ABCD1234".to_string()),
            from_id: Some("host-1".to_string()),
            to_id: Some("viewer-1".to_string()),
            payload: "the offer".to_string(),
        }
    );
    let answer = client.send_answer("viewer-2", "the answer").unwrap();
    assert_eq!(answer.kind, EnvelopeKind::Answer);
    assert_eq!(answer.to_id, Some("viewer-2".to_string()));
    assert_eq!(answer.payload, "the answer");
    let candidate = client.send_ice_candidate("viewer-1", "a candidate").unwrap();
    assert_eq!(candidate.kind, EnvelopeKind::Candidate);
    assert_eq!(candidate.payload, "a candidate");
    assert_eq!(candidate.session_id, Some("ABCD1234".to_string()));
}

#[test]
fn sending_over_a_link_without_membership_leaves_the_ids_out() {
    let mut client = SignalingClient::new("ws://x").unwrap();
    client.connect();
    client.dial_finished(true).unwrap();
    let offer = client.send_offer("viewer-1", "o").unwrap();
    assert_eq!(offer.session_id, None);
    assert_eq!(offer.from_id, None);
    assert_eq!(offer.to_id, Some("viewer-1".to_string()));
}

#[test]
fn leave_clears_membership_and_is_idempotent() {
    let mut client = connected_member();
    let farewell = client.leave_session().unwrap();
    assert_eq!(
        farewell,
        Some(Envelope {
            kind: EnvelopeKind::Leave,
            session_id: Some("ABCD1234".to_string()),
            from_id: Some("host-1".to_string()),
            to_id: None,
            payload: "host".to_string(),
        })
    );
    assert_eq!(client.get_session_info(), (None, None, None));
    assert!(client.is_connected());
    assert_eq!(client.leave_session().unwrap(), None);
    assert_eq!(client.get_session_info(), (None, None, None));
}

#[test]
fn leave_without_a_link_clears_membership_and_sends_nothing() {
    let mut client = SignalingClient::new("ws://x").unwrap();
    client.join_session("ABCD1234", "host-1", Role::Host);
    assert_eq!(client.leave_session().unwrap(), None);
    assert_eq!(client.get_session_info(), (None, None, None));
    assert_eq!(client.pending_join, None);
    // and no join goes out when a link comes
    client.connect();
    assert_eq!(client.dial_finished(true), Ok(LinkAction::Idle));
}

#[test]
fn disconnect_clears_everything_and_is_idempotent() {
    let mut client = connected_member();
    client.disconnect().unwrap();
    assert!(!client.is_connected());
    assert_eq!(client.get_session_info(), (None, None, None));
    assert_eq!(client.server_url, "ws://localhost:3001/signaling");
    client.disconnect().unwrap();
    assert!(!client.is_connected());
    assert_eq!(client.failed_dials, 0);
}

#[test]
fn inbound_envelopes_are_filtered_by_session_and_address() {
    let mut client = connected_member();
    let broadcast = inbound(EnvelopeKind::Join, "ABCD1234", "viewer-1", None);
    assert_eq!(client.on_envelope(broadcast.clone()), Ok(Some(broadcast)));
    let direct = inbound(EnvelopeKind::Answer, "ABCD1234", "viewer-1", Some("host-1"));
    assert!(client.accepts(&direct));
    assert_eq!(client.on_envelope(direct.clone()), Ok(Some(direct)));
    let other_session = inbound(EnvelopeKind::Answer, "ZZZZ9999", "viewer-1", Some("host-1"));
    assert_eq!(client.on_envelope(other_session), Ok(None));
    let other_target = inbound(EnvelopeKind::Answer, "ABCD1234", "viewer-1", Some("viewer-2"));
    assert_eq!(client.on_envelope(other_target), Ok(None));
    let echo = inbound(EnvelopeKind::Offer, "ABCD1234", "host-1", None);
    assert_eq!(client.on_envelope(echo), Ok(None));
    let mut no_session = inbound(EnvelopeKind::Offer, "ABCD1234", "viewer-1", None);
    no_session.session_id = None;
    assert_eq!(client.on_envelope(no_session), Ok(None));
}

#[test]
fn inbound_envelopes_without_membership_are_dropped() {
    let mut client = SignalingClient::new("ws://x").unwrap();
    let envelope = inbound(EnvelopeKind::Offer, "ABCD1234", "viewer-1", None);
    assert!(!client.accepts(&envelope));
    assert_eq!(client.on_envelope(envelope), Ok(None));
}

#[test]
fn error_envelope_is_a_rejection_and_ends_the_membership() {
    let mut client = connected_member();
    let refusal = inbound(EnvelopeKind::Error, "ABCD1234", "service", Some("host-1"));
    assert_eq!(
        client.on_envelope(refusal),
        Err(SignalingError { kind: SignalingFault::Rejected })
    );
    assert_eq!(client.get_session_info(), (None, None, None));
    assert_eq!(client.previous, None);
    assert!(client.is_connected());
}

#[test]
fn device_registration_needs_a_link() {
    let device = DeviceInfo {
        agent_id: "agent".to_string(),
        host_id: "host".to_string(),
        platform: "linux".to_string(),
        arch: "x86_64".to_string(),
        hostname: "box".to_string(),
        version: "0.1.0".to_string(),
    };
    let client = SignalingClient::new("ws://x").unwrap();
    assert_eq!(
        client.register_device(device.clone()),
        Err(SignalingError { kind: SignalingFault::NotConnected })
    );
    let client = connected_member();
    assert_eq!(client.register_device(device), Ok(()));
}
