use terminal_remote::agent::{RelayCommand, RelayEvent};
use terminal_remote::ipc::{IpcCommand, IpcEvent, SOCKET_PATH};
use terminal_remote::tmux::TmuxCommand;
use terminal_remote::ui::{BackgroundCommand, UiEvent};

#[test]
fn test_ui_event_variants() {
    // Compile check - events are constructible
    let _connected = UiEvent::RelayConnected;
    let _disconnected = UiEvent::RelayDisconnected;
    let _code = UiEvent::SessionCode("ABC123".into());
    let _browser_conn = UiEvent::BrowserConnected("browser-id".into());
    let _browser_disc = UiEvent::BrowserDisconnected("browser-id".into());
    let _relay_error = UiEvent::RelayError("test error".into());
    let _shell_conn = UiEvent::ShellConnected {
        session_id: "sess-1".into(),
        name: "zsh".into(),
    };
    let _shell_disc = UiEvent::ShellDisconnected {
        session_id: "sess-1".into(),
    };
    let _shell_count = UiEvent::ShellCountChanged(5);
    let _ipc_error = UiEvent::IpcError("ipc error".into());
    let _terminal_from_shell = UiEvent::TerminalDataFromShell {
        session_id: "sess-1".into(),
        data: vec![0x1b, 0x5b, 0x41],
    };
    let _terminal_from_relay = UiEvent::TerminalDataFromRelay {
        session_id: "sess-1".into(),
        data: vec![0x68, 0x65, 0x6c, 0x6c, 0x6f],
    };
}

#[test]
fn test_background_command_variants() {
    let _shutdown = BackgroundCommand::Shutdown;
    let _send_terminal = BackgroundCommand::SendTerminalData {
        session_id: "sess-1".into(),
        data: vec![0x01, 0x02, 0x03],
    };
    let _send_to_shell = BackgroundCommand::SendToShell {
        session_id: "sess-1".into(),
        data: vec![0x04, 0x05, 0x06],
    };
}

#[test]
fn test_socket_path_constant() {
    assert_eq!(SOCKET_PATH, "/tmp/terminal-remote.sock");
}

#[test]
fn test_ipc_event_debug() {
    let event = IpcEvent::SessionCountChanged(5);
    let debug_str = format!("{:?}", event);
    assert!(debug_str.contains("SessionCountChanged"));
    assert!(debug_str.contains("5"));
}

#[test]
fn test_ipc_event_terminal_data() {
    let event = IpcEvent::TerminalData {
        session_id: "sess-1".into(),
        data: vec![0x1b, 0x5b, 0x41],
    };
    let debug_str = format!("{:?}", event);
    assert!(debug_str.contains("TerminalData"));
    assert!(debug_str.contains("sess-1"));
}

#[test]
fn test_ipc_command_debug() {
    let cmd = IpcCommand::WriteToSession {
        session_id: "sess-1".into(),
        data: vec![0x68, 0x69],
    };
    let debug_str = format!("{:?}", cmd);
    assert!(debug_str.contains("WriteToSession"));
    assert!(debug_str.contains("sess-1"));
}

#[test]
fn test_relay_event_variants() {
    // Compile check - events are constructible
    let _connected = RelayEvent::Connected;
    let _disconnected = RelayEvent::Disconnected;
    let _code = RelayEvent::SessionCode("ABC123".into());
    let _browser_conn = RelayEvent::BrowserConnected("browser-id".into());
    let _browser_disc = RelayEvent::BrowserDisconnected("browser-id".into());
    let _error = RelayEvent::Error("test error".into());
    let _terminal_data = RelayEvent::TerminalData {
        session_id: "sess-1".into(),
        data: vec![0x68, 0x65, 0x6c, 0x6c, 0x6f],
    };
}

#[test]
fn test_relay_command_variants() {
    let _send = RelayCommand::SendTerminalData {
        session_id: "sess-1".into(),
        data: vec![0x01, 0x02, 0x03],
    };
}

#[test]
fn test_tmux_command_variants() {
    let cmd = TmuxCommand::ListSessions;
    assert!(matches!(cmd, TmuxCommand::ListSessions));

    let cmd = TmuxCommand::NewSession { name: Some("test".into()) };
    assert!(matches!(cmd, TmuxCommand::NewSession { .. }));
}
