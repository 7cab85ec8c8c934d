use terminal_remote::broker::{AppState, AuthOutcome, RegisterError, MAX_MINT_ATTEMPTS};
use terminal_remote::code::is_valid_code;
use terminal_remote::frame::decode_frame;
use terminal_remote::protocol::{BrowserMessage, ControlMessage};
use terminal_remote::relay::{
    agent_step, browser_step, classify_first_message, close_session_frame, AgentStep, BrowserStep,
    FirstFrame, Handshake, SocketInput,
};

fn error_text(m: &ControlMessage) -> Option<String> {
    match m {
        ControlMessage::Error { message } => Some(message.clone()),
        _ => None,
    }
}

#[test]
fn register_mints_a_valid_code() {
    let mut state: AppState<u32, u32> = AppState::new();
    let code = state.register_mac_client("u-1".to_string(), 7).unwrap();
    assert!(is_valid_code(&code));
    assert!(state.validate_session_code(&code));
    assert_eq!(state.session_count(), 1);
    assert_eq!(state.get_mac_sender(&code), Some(&7));
    let _unused = RegisterError::CodeSpaceExhausted;
    assert_eq!(MAX_MINT_ATTEMPTS, 8);
}

#[test]
fn many_registrations_give_distinct_codes() {
    let mut state: AppState<u32, u32> = AppState::new();
    let mut codes: Vec<String> = Vec::new();
    for i in 0..300u32 {
        codes.push(state.register_mac_client(format!("agent-{}", i), i).unwrap());
    }
    let mut sorted = codes.clone();
    sorted.sort();
    sorted.dedup();
    assert_eq!(sorted.len(), 300);
    assert_eq!(state.session_count(), 300);
}

#[test]
fn insert_session_refuses_a_code_in_use() {
    let mut state: AppState<u32, u32> = AppState::new();
    assert!(state.insert_session("ABCDEF".to_string(), "a".to_string(), 1).is_ok());
    assert_eq!(state.insert_session("ABCDEF".to_string(), "b".to_string(), 2), Err(2));
    assert_eq!(state.session_count(), 1);
    assert_eq!(state.get_mac_sender("ABCDEF"), Some(&1));
}

#[test]
fn lowercase_auth_attaches_to_the_same_session() {
    let mut state: AppState<u32, u32> = AppState::new();
    let code = state.register_mac_client("u-1".to_string(), 1).unwrap();
    let lower = code.to_lowercase();
    match state.auth_browser(&lower, 10) {
        AuthOutcome::Accepted { code: c, browser_id } => {
            assert_eq!(c, code);
            assert_eq!(browser_id.chars().count(), 8);
        }
        AuthOutcome::Refused { .. } => panic!("lower-case code refused"),
    }
    match state.auth_browser(&code, 11) {
        AuthOutcome::Accepted { code: c, .. } => assert_eq!(c, code),
        AuthOutcome::Refused { .. } => panic!("code refused"),
    }
    let sinks: Vec<u32> = state.browsers(&code).iter().map(|b| b.sink).collect();
    assert_eq!(sinks, vec![10, 11]);
}

#[test]
fn unknown_code_is_refused() {
    let mut state: AppState<u32, u32> = AppState::new();
    match state.auth_browser("zzzzzz", 5) {
        AuthOutcome::Refused { sink, reply } => {
            assert_eq!(sink, 5);
            match reply {
                ControlMessage::AuthFailed { reason } => assert_eq!(reason, "Invalid session code"),
                _ => panic!("wrong reply"),
            }
        }
        AuthOutcome::Accepted { .. } => panic!("accepted"),
    }
}

#[test]
fn add_and_remove_browsers() {
    let mut state: AppState<u32, u32> = AppState::new();
    state.insert_session("ABCDEF".to_string(), "a".to_string(), 1).ok().unwrap();
    assert!(state.add_browser("ABCDEF", "b1".to_string(), 10).is_ok());
    assert_eq!(state.add_browser("ABCDEF", "b1".to_string(), 11), Err(11));
    assert_eq!(state.add_browser("NOSUCH", "b2".to_string(), 12), Err(12));
    assert!(state.add_browser("ABCDEF", "b2".to_string(), 13).is_ok());
    state.remove_browser("ABCDEF", "b1");
    let ids: Vec<String> = state.browsers("ABCDEF").iter().map(|b| b.browser_id.clone()).collect();
    assert_eq!(ids, vec!["b2".to_string()]);
    state.remove_browser("ABCDEF", "missing");
    assert_eq!(state.browsers("ABCDEF").len(), 1);
    assert!(state.browsers("NOSUCH").is_empty());
}

#[test]
fn agent_close_notifies_every_browser_once() {
    let mut state: AppState<u32, u32> = AppState::new();
    let code = state.register_mac_client("u-1".to_string(), 1).unwrap();
    state.add_browser(&code, "b1".to_string(), 10).ok().unwrap();
    state.add_browser(&code, "b2".to_string(), 11).ok().unwrap();
    let notices = state.remove_session(&code);
    assert_eq!(notices.len(), 2);
    assert_eq!(notices[0].sink, 10);
    assert_eq!(notices[1].sink, 11);
    for n in &notices {
        match &n.message {
            BrowserMessage::Control(m) => {
                assert_eq!(error_text(m), Some("Session disconnected".to_string()))
            }
            _ => panic!("not a control message"),
        }
    }
    assert_eq!(state.session_count(), 0);
    assert!(!state.validate_session_code(&code));
    assert!(state.remove_session(&code).is_empty());
}

#[test]
fn first_message_must_be_register_or_auth() {
    match classify_first_message(FirstFrame::Text(Some(ControlMessage::Register {
        client_id: "u-1".into(),
    }))) {
        Handshake::Agent { client_id } => assert_eq!(client_id, "u-1"),
        _ => panic!("not an agent"),
    }
    match classify_first_message(FirstFrame::Text(Some(ControlMessage::Auth {
        session_code: "xxxxxx".into(),
    }))) {
        Handshake::Browser { session_code } => assert_eq!(session_code, "xxxxxx"),
        _ => panic!("not a browser"),
    }
    let cases = vec![
        (FirstFrame::Binary, "First message must be JSON"),
        (FirstFrame::Text(None), "Invalid JSON"),
        (FirstFrame::Text(Some(ControlMessage::AuthSuccess)), "First message must be Register or Auth"),
        (FirstFrame::Text(Some(ControlMessage::CreateSession)), "First message must be Register or Auth"),
    ];
    for (first, text) in cases {
        match classify_first_message(first) {
            Handshake::Reject { reply } => assert_eq!(error_text(&reply), Some(text.to_string())),
            _ => panic!("accepted"),
        }
    }
}

#[test]
fn agent_output_reaches_browsers_attached_at_the_time() {
    let mut state: AppState<u32, u32> = AppState::new();
    let code = state.register_mac_client("u-1".to_string(), 1).unwrap();
    state.add_browser(&code, "b1".to_string(), 10).ok().unwrap();
    let frame = vec![0x04, b's', b'e', b's', b's', 0x68, 0x69];
    match agent_step(SocketInput::Binary(frame.clone())) {
        AgentStep::BroadcastBinary(d) => assert_eq!(d, frame),
        _ => panic!("not broadcast"),
    }
    let first: Vec<u32> = state.browsers(&code).iter().map(|b| b.sink).collect();
    assert_eq!(first, vec![10]);
    state.add_browser(&code, "b2".to_string(), 11).ok().unwrap();
    let second: Vec<u32> = state.browsers(&code).iter().map(|b| b.sink).collect();
    assert_eq!(second, vec![10, 11]);
}

#[test]
fn agent_text_routing() {
    let raw = "{\"type\":\"session_list\",\"sessions\":[]}".to_string();
    let m = ControlMessage::SessionList { sessions: vec![] };
    match agent_step(SocketInput::Text { raw: raw.clone(), parsed: Some(m) }) {
        AgentStep::BroadcastText(t) => assert_eq!(t, raw),
        _ => panic!("not forwarded"),
    }
    let m = ControlMessage::Error { message: "x".into() };
    assert!(matches!(agent_step(SocketInput::Text { raw: "e".into(), parsed: Some(m) }), AgentStep::Ignore));
    assert!(matches!(agent_step(SocketInput::Text { raw: "junk".into(), parsed: None }), AgentStep::Ignore));
    assert!(matches!(agent_step(SocketInput::Closed), AgentStep::Teardown));
    assert!(matches!(agent_step(SocketInput::Other), AgentStep::Ignore));
}

#[test]
fn browser_frames_go_to_the_agent_in_order() {
    let frames: Vec<Vec<u8>> = (0..20u8).map(|i| vec![0x01, b'a', i, i + 1]).collect();
    let mut forwarded = Vec::new();
    for f in &frames {
        match browser_step(SocketInput::Binary(f.clone())) {
            BrowserStep::ToAgentBinary(d) => forwarded.push(d),
            _ => panic!("not forwarded"),
        }
    }
    assert_eq!(forwarded, frames);
}

#[test]
fn browser_control_routing() {
    let m = ControlMessage::CloseSession { session_id: "sess".into() };
    match browser_step(SocketInput::Text { raw: String::new(), parsed: Some(m) }) {
        BrowserStep::ToAgentBinary(f) => {
            let mut expected = vec![0x04];
            expected.extend_from_slice(b"sess");
            expected.extend_from_slice(b"{\"type\":\"close_session\"}");
            assert_eq!(f, expected);
            let d = decode_frame(&f).unwrap();
            assert_eq!(d.session_id, b"sess".to_vec());
        }
        _ => panic!("no frame"),
    }
    let raw = "{\"type\":\"create_session\"}".to_string();
    match browser_step(SocketInput::Text { raw: raw.clone(), parsed: Some(ControlMessage::CreateSession) }) {
        BrowserStep::ToAgentText(t) => assert_eq!(t, raw),
        _ => panic!("not forwarded"),
    }
    assert!(matches!(browser_step(SocketInput::Closed), BrowserStep::Detach));
    assert!(matches!(browser_step(SocketInput::Text { raw: "x".into(), parsed: None }), BrowserStep::Ignore));
    let long = "x".repeat(256);
    assert!(close_session_frame(&long).is_none());
    let m = ControlMessage::CloseSession { session_id: long };
    assert!(matches!(browser_step(SocketInput::Text { raw: String::new(), parsed: Some(m) }), BrowserStep::Ignore));
}

#[test]
fn slow_browsers_are_dropped_from_the_fan_out() {
    let mut state: AppState<u32, u32> = AppState::new();
    state.insert_session("ABCDEF".to_string(), "a".to_string(), 1).ok().unwrap();
    for (id, sink) in [("b1", 10u32), ("b2", 11), ("b3", 12), ("b4", 13)] {
        state.add_browser("ABCDEF", id.to_string(), sink).ok().unwrap();
    }
    state.drop_browsers("ABCDEF", &vec!["b3".to_string(), "b1".to_string(), "zz".to_string()]);
    let left: Vec<(String, u32)> =
        state.browsers("ABCDEF").iter().map(|b| (b.browser_id.clone(), b.sink)).collect();
    assert_eq!(left, vec![("b2".to_string(), 11), ("b4".to_string(), 13)]);
    state.drop_browsers("NOSUCH", &vec!["b2".to_string()]);
    assert_eq!(state.browsers("ABCDEF").len(), 2);
    assert_eq!(state.session_count(), 1);
}
