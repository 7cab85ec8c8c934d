use terminal_remote::agent::{
    binary_event, command_outbound, inband_control, inband_event, payload_event,
    reconnect_delay_secs, text_event, InbandControl, LinkAction, LinkEvent, LinkState, Outbound,
    ReconnectPolicy, RelayCommand, RelayEvent, RelayLink,
};
use terminal_remote::frame::{decode_frame, encode_frame, encode_session_frame, FrameError};
use terminal_remote::protocol::ControlMessage;

fn frame(id: &str, payload: &[u8]) -> Vec<u8> {
    let mut f = vec![id.len() as u8];
    f.extend_from_slice(id.as_bytes());
    f.extend_from_slice(payload);
    f
}

#[test]
fn frame_round_trip() {
    for len in [0usize, 1, 4, 36, 255] {
        let id: Vec<u8> = (0..len).map(|i| (i % 251) as u8).collect();
        let payload = vec![1u8, 2, 3, 0x7b];
        let f = encode_frame(&id, &payload).unwrap();
        assert_eq!(f.len(), 1 + len + payload.len());
        let d = decode_frame(&f).unwrap();
        assert_eq!(d.session_id, id);
        assert_eq!(d.payload, payload);
    }
    assert_eq!(encode_frame(&vec![0u8; 256], b"x"), Err(FrameError::IdTooLong));
    assert_eq!(encode_session_frame("sess", b"hi").unwrap(), frame("sess", b"hi"));
}

#[test]
fn short_frames_are_malformed() {
    assert!(decode_frame(&[]).is_none());
    assert!(decode_frame(&[4, b's', b'e', b's']).is_none());
    assert!(decode_frame(&[255]).is_none());
    let empty = decode_frame(&[0]).unwrap();
    assert!(empty.session_id.is_empty() && empty.payload.is_empty());
    let exact = decode_frame(&[2, b'a', b'b']).unwrap();
    assert_eq!(exact.session_id, b"ab".to_vec());
    assert!(exact.payload.is_empty());
}

#[test]
fn session_ids_are_read_as_utf8() {
    match binary_event(&frame("sess-é", b"x")) {
        Some(RelayEvent::TerminalData { session_id, .. }) => assert_eq!(session_id, "sess-é"),
        other => panic!("unexpected {:?}", other),
    }
    match binary_event(&[2, b'a', 0xff, b'x']) {
        Some(RelayEvent::TerminalData { session_id, data }) => {
            assert_eq!(session_id, "a\u{fffd}");
            assert_eq!(data, b"x".to_vec());
        }
        other => panic!("unexpected {:?}", other),
    }
}

#[test]
fn resize_frame_becomes_resize_event() {
    let f = frame("sess", b"{\"type\":\"resize\",\"cols\":100,\"rows\":30}");
    match binary_event(&f) {
        Some(RelayEvent::Resize { session_id, cols, rows }) => {
            assert_eq!(session_id, "sess");
            assert_eq!((cols, rows), (100, 30));
        }
        other => panic!("unexpected {:?}", other),
    }
}

#[test]
fn close_frame_becomes_close_event() {
    let f = frame("sess", b"{\"type\":\"close_session\"}");
    match binary_event(&f) {
        Some(RelayEvent::CloseSession { session_id }) => assert_eq!(session_id, "sess"),
        other => panic!("unexpected {:?}", other),
    }
}

#[test]
fn other_payloads_are_keystrokes() {
    for payload in [&b"hi"[..], b"{not json", b"{\"type\":\"resize\",\"cols\":1}", b"{\"type\":\"other\"}", b""] {
        let f = frame("s1", payload);
        match binary_event(&f) {
            Some(RelayEvent::TerminalData { session_id, data }) => {
                assert_eq!(session_id, "s1");
                assert_eq!(data, payload.to_vec());
            }
            other => panic!("unexpected {:?}", other),
        }
    }
    assert!(binary_event(&[9, 1]).is_none());
}

#[test]
fn inband_reading_is_exact() {
    assert_eq!(
        inband_control(Some("resize".into()), Some(65536 + 80), Some(24)),
        Some(InbandControl::Resize { cols: 80, rows: 24 })
    );
    assert_eq!(inband_control(Some("resize".into()), None, Some(24)), None);
    assert_eq!(inband_control(Some("close_session".into()), None, None), Some(InbandControl::CloseSession));
    assert_eq!(inband_control(Some("Resize".into()), Some(1), Some(1)), None);
    assert_eq!(inband_control(None, Some(1), Some(1)), None);
    match inband_event("a".into(), vec![1], None) {
        RelayEvent::TerminalData { session_id, data } => {
            assert_eq!(session_id, "a");
            assert_eq!(data, vec![1]);
        }
        _ => panic!(),
    }
    match payload_event("b".into(), b"plain".to_vec()) {
        RelayEvent::TerminalData { data, .. } => assert_eq!(data, b"plain".to_vec()),
        _ => panic!(),
    }
}

#[test]
fn text_messages_become_events() {
    match text_event(ControlMessage::Registered { code: "ABC123".into() }) {
        Some(RelayEvent::SessionCode(c)) => assert_eq!(c, "ABC123"),
        _ => panic!(),
    }
    match text_event(ControlMessage::BrowserConnected { browser_id: "browser-uuid".into() }) {
        Some(RelayEvent::BrowserConnected(b)) => assert_eq!(b, "browser-uuid"),
        _ => panic!(),
    }
    match text_event(ControlMessage::Error { message: "Something went wrong".into() }) {
        Some(RelayEvent::Error(m)) => assert_eq!(m, "Something went wrong"),
        _ => panic!(),
    }
    assert!(matches!(text_event(ControlMessage::CreateSession), Some(RelayEvent::CreateSession)));
    assert!(text_event(ControlMessage::AuthSuccess).is_none());
}

#[test]
fn commands_put_the_right_thing_on_the_wire() {
    match command_outbound(RelayCommand::SendTerminalData { session_id: "sess".into(), data: vec![0x68, 0x69] }) {
        Some(Outbound::Binary(f)) => assert_eq!(f, frame("sess", &[0x68, 0x69])),
        _ => panic!(),
    }
    assert!(command_outbound(RelayCommand::SendTerminalData { session_id: "x".repeat(300), data: vec![] }).is_none());
    match command_outbound(RelayCommand::SendSessionList {
        sessions: vec![("id1".into(), "one".into()), ("id2".into(), "two".into())],
    }) {
        Some(Outbound::Control(ControlMessage::SessionList { sessions })) => {
            assert_eq!(sessions.len(), 2);
            assert_eq!((sessions[1].id.as_str(), sessions[1].name.as_str()), ("id2", "two"));
        }
        _ => panic!(),
    }
    assert!(matches!(command_outbound(RelayCommand::Reconnect), Some(Outbound::Close)));
    match command_outbound(RelayCommand::SendSessionDisconnected { session_id: "s".into() }) {
        Some(Outbound::Control(ControlMessage::SessionDisconnected { session_id })) => assert_eq!(session_id, "s"),
        _ => panic!(),
    }
}

#[test]
fn backoff_schedule_is_capped() {
    let delays: Vec<u64> = (0..9).map(reconnect_delay_secs).collect();
    assert_eq!(delays, vec![1, 2, 4, 8, 16, 32, 32, 32, 32]);
    assert_eq!(reconnect_delay_secs(u32::MAX), 32);
    let mut p = ReconnectPolicy::new();
    let seen: Vec<u64> = (0..7).map(|_| p.next_delay()).collect();
    assert_eq!(seen, vec![1, 2, 4, 8, 16, 32, 32]);
    p.on_registered();
    assert_eq!(p.next_delay(), 1);
}

#[test]
fn link_connects_registers_and_backs_off() {
    let mut link = RelayLink::new();
    assert_eq!(link.client_id.len(), 36);
    assert_eq!(link.state, LinkState::Connecting);
    match link.step(LinkEvent::Opened) {
        LinkAction::Send(ControlMessage::Register { client_id }) => assert_eq!(client_id, link.client_id),
        other => panic!("unexpected {:?}", other),
    }
    assert!(matches!(link.step(LinkEvent::Registered), LinkAction::Nothing));
    assert_eq!(link.state, LinkState::Registered);
    let mut delays = Vec::new();
    for _ in 0..7 {
        match link.step(LinkEvent::Closed) {
            LinkAction::Sleep(d) => delays.push(d),
            other => panic!("unexpected {:?}", other),
        }
        assert_eq!(link.state, LinkState::Disconnected);
        assert!(matches!(link.step(LinkEvent::DelayElapsed), LinkAction::Connect));
        assert_eq!(link.state, LinkState::Connecting);
    }
    assert_eq!(delays, vec![1, 2, 4, 8, 16, 32, 32]);
    link.step(LinkEvent::Opened);
    link.step(LinkEvent::Registered);
    assert!(matches!(link.step(LinkEvent::ReconnectRequested), LinkAction::SendClose));
    assert_eq!(link.state, LinkState::Draining);
    match link.step(LinkEvent::Closed) {
        LinkAction::Sleep(d) => assert_eq!(d, 1),
        other => panic!("unexpected {:?}", other),
    }
}

#[test]
fn test_relay_client_creation() {
    let link = RelayLink::new();

    // Verify client_id is a valid UUID
    assert!(uuid::Uuid::parse_str(&link.client_id).is_ok());
    assert_eq!(link.policy.attempts, 0);
}
