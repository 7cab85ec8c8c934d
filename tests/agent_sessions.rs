use terminal_remote::agent::RelayCommand;
use terminal_remote::agent::RelayEvent;
use terminal_remote::listing::{parse_session_list, parse_u32};
use terminal_remote::router::{background_step, route_relay_event, route_tmux_event, BackgroundStep, SessionDirectory};
use terminal_remote::tmux::{sessions_to_attach, watch_step, AttachedSessions, TmuxCommand, TmuxEvent};
use terminal_remote::tunnel::{choose_tunnel_binary, extract_tunnel_url, find_cloudflared, TunnelWatcher};
use terminal_remote::ui::{AppState, BackgroundCommand, UiEvent};

fn strings(v: &[&str]) -> Vec<String> {
    v.iter().map(|s| s.to_string()).collect()
}

fn chars(s: &str) -> Vec<char> {
    s.chars().collect()
}

#[test]
fn tunnel_url_is_picked_from_the_log_line() {
    let line = "2026-01-01T00:00:00Z INF | https://foo-bar-baz.trycloudflare.com";
    assert_eq!(extract_tunnel_url(line), Some("https://foo-bar-baz.trycloudflare.com".to_string()));
    assert_eq!(extract_tunnel_url("INF\t|\thttps://a.trycloudflare.com  "), Some("https://a.trycloudflare.com".to_string()));
    assert_eq!(extract_tunnel_url("http://x.trycloudflare.com https://example.com"), None);
    assert_eq!(extract_tunnel_url(""), None);
    assert_eq!(
        extract_tunnel_url("https://one.trycloudflare.com https://two.trycloudflare.com"),
        Some("https://one.trycloudflare.com".to_string())
    );
}

#[test]
fn tunnel_url_is_reported_once() {
    let mut w = TunnelWatcher::new();
    let line = "2026-01-01T00:00:00Z INF | https://foo-bar-baz.trycloudflare.com";
    assert_eq!(w.observe(line), Some("https://foo-bar-baz.trycloudflare.com".to_string()));
    assert_eq!(w.observe(line), None);
    assert_eq!(w.observe("INF nothing here"), None);
    assert_eq!(w.observe("https://new.trycloudflare.com"), Some("https://new.trycloudflare.com".to_string()));
    assert_eq!(w.observe(line), None);
    assert_eq!(w.observe("INF https://new.trycloudflare.com"), None);
}

#[test]
fn tunnel_url_must_end_in_the_tunnel_domain() {
    assert_eq!(extract_tunnel_url("https://trycloudflare.com.evil.example"), None);
    assert_eq!(extract_tunnel_url("https://x.trycloudflare.com/path"), None);
    assert_eq!(extract_tunnel_url("https://.trycloudflare.com"), Some("https://.trycloudflare.com".to_string()));
    assert_eq!(
        extract_tunnel_url("x https://a.example.com https://b.trycloudflare.com"),
        Some("https://b.trycloudflare.com".to_string())
    );
    assert_eq!(
        extract_tunnel_url("\u{3000}https://c.trycloudflare.com\u{a0}"),
        Some("https://c.trycloudflare.com".to_string())
    );
}

#[test]
fn tunnel_binary_lookup_order() {
    assert_eq!(choose_tunnel_binary(true, true), "/opt/homebrew/bin/cloudflared");
    assert_eq!(choose_tunnel_binary(false, true), "/usr/local/bin/cloudflared");
    assert_eq!(choose_tunnel_binary(false, false), "cloudflared");
    let found = find_cloudflared();
    assert!(["/opt/homebrew/bin/cloudflared", "/usr/local/bin/cloudflared", "cloudflared"].contains(&found.as_str()));
}

#[test]
fn list_sessions_output_is_parsed() {
    let out = "main|3|1767225600|1\nwork|1|1767225700|0\r\nbroken line\nodd|x|1|2\n";
    let list = parse_session_list(out);
    assert_eq!(list.len(), 3);
    assert_eq!(list[0].name, "main");
    assert_eq!(list[0].windows, 3);
    assert_eq!(list[0].created, "1767225600");
    assert!(list[0].attached);
    assert_eq!(list[1].name, "work");
    assert!(!list[1].attached);
    assert_eq!(list[2].windows, 0);
    assert!(list[2].attached);
    assert!(parse_session_list("").is_empty());
}

#[test]
fn decimal_parsing_follows_from_str() {
    assert_eq!(parse_u32(&chars("42")), Some(42));
    assert_eq!(parse_u32(&chars("+7")), Some(7));
    assert_eq!(parse_u32(&chars("4294967295")), Some(u32::MAX));
    assert_eq!(parse_u32(&chars("4294967296")), None);
    assert_eq!(parse_u32(&chars("")), None);
    assert_eq!(parse_u32(&chars("+")), None);
    assert_eq!(parse_u32(&chars("1a")), None);
    assert_eq!(parse_u32(&chars(" 1")), None);
    for s in ["0", "12", "+3", "99999999999", "-1"] {
        assert_eq!(parse_u32(&chars(s)), s.parse::<u32>().ok());
    }
}

#[test]
fn watcher_attaches_new_sessions_only() {
    let known = strings(&["a", "b"]);
    let current = strings(&["b", "c", "d"]);
    let attached = strings(&["d"]);
    let (remember, fresh) = watch_step(&known, &current, &attached);
    assert_eq!(remember, current);
    assert_eq!(fresh, strings(&["c"]));
    assert_eq!(sessions_to_attach(&strings(&["x", "y"]), &strings(&["y"])), strings(&["x"]));
}

#[test]
fn attached_sessions_table() {
    let mut t: AttachedSessions<u32> = AttachedSessions::new();
    assert!(t.attach("id-1".into(), "main".into(), 1).is_ok());
    assert_eq!(t.attach("id-1".into(), "other".into(), 2), Err(2));
    let fresh = t.attach_fresh("work".into(), 3).unwrap();
    assert_eq!(fresh.len(), 36);
    assert_eq!(t.len(), 2);
    assert_eq!(t.get("id-1"), Some(&1));
    assert_eq!(t.get("nope"), None);
    assert_eq!(t.name_of(&fresh), Some("work".to_string()));
    assert_eq!(t.attached_names(), strings(&["main", "work"]));
    assert_eq!(t.detach("id-1"), Some(1));
    assert_eq!(t.detach("id-1"), None);
    assert_eq!(t.attach("id-1".into(), "again".into(), 4), Err(4));
    assert_eq!(t.len(), 1);
}

#[test]
fn resize_from_browser_reaches_the_session_manager() {
    let dir = SessionDirectory::new();
    let r = route_relay_event(&dir, RelayEvent::Resize { session_id: "sess".into(), cols: 100, rows: 30 });
    match r.tmux {
        Some(TmuxCommand::Resize { session_id, cols, rows }) => {
            assert_eq!(session_id, "sess");
            assert_eq!((cols, rows), (100, 30));
        }
        other => panic!("unexpected {:?}", other),
    }
    assert!(r.ui.is_none() && r.relay.is_none() && !r.open_terminal);
    let r = route_relay_event(&dir, RelayEvent::TerminalData { session_id: "s".into(), data: vec![0x68] });
    assert!(matches!(r.tmux, Some(TmuxCommand::Write { .. })));
    match r.ui {
        Some(UiEvent::TerminalDataFromRelay { session_id, data }) => {
            assert_eq!(session_id, "s");
            assert_eq!(data, vec![0x68]);
        }
        other => panic!("unexpected {:?}", other),
    }
    let r = route_relay_event(&dir, RelayEvent::CreateSession);
    assert!(r.open_terminal);
    let r = route_relay_event(&dir, RelayEvent::CloseSession { session_id: "s".into() });
    assert!(matches!(r.tmux, Some(TmuxCommand::KillSessionById { .. })));
}

#[test]
fn new_browser_gets_the_session_list() {
    let mut dir = SessionDirectory::new();
    route_tmux_event(&mut dir, TmuxEvent::Attached { session_id: "u1".into(), session_name: "main".into() });
    route_tmux_event(&mut dir, TmuxEvent::Attached { session_id: "u2".into(), session_name: "work".into() });
    let r = route_tmux_event(&mut dir, TmuxEvent::Detached { session_id: "u1".into() });
    assert!(matches!(r.relay, Some(RelayCommand::SendSessionDisconnected { .. })));
    let r = route_relay_event(&dir, RelayEvent::BrowserConnected("b".into()));
    match r.relay {
        Some(RelayCommand::SendSessionList { sessions }) => {
            assert_eq!(sessions, vec![("u2".to_string(), "work".to_string())]);
        }
        other => panic!("unexpected {:?}", other),
    }
    assert!(matches!(r.ui, Some(UiEvent::BrowserConnected(_))));
    let r = route_tmux_event(&mut dir, TmuxEvent::Output { session_id: "u2".into(), data: vec![1] });
    assert!(matches!(r.relay, Some(RelayCommand::SendTerminalData { .. })));
}

#[test]
fn background_commands_are_routed() {
    assert!(matches!(background_step(BackgroundCommand::Shutdown), BackgroundStep::Stop));
    assert!(matches!(
        background_step(BackgroundCommand::SendToShell { session_id: "s".into(), data: vec![1] }),
        BackgroundStep::Tmux(TmuxCommand::Write { .. })
    ));
    assert!(matches!(
        background_step(BackgroundCommand::ReconnectRelay),
        BackgroundStep::Relay(RelayCommand::Reconnect)
    ));
}

#[test]
fn status_follows_events() {
    let mut s = AppState::new();
    assert_eq!(s.code_display(), "Code: ------");
    assert_eq!(s.status_display(), "Status: Disconnected");
    s.apply(UiEvent::RelayConnected);
    s.apply(UiEvent::SessionCode("ABC123".into()));
    assert_eq!(s.code_display(), "Code: ABC123");
    assert_eq!(s.status_display(), "Status: Connected");
    s.apply(UiEvent::BrowserDisconnected("b".into()));
    assert_eq!(s.browser_count, 0);
    s.apply(UiEvent::BrowserConnected("b".into()));
    s.apply(UiEvent::ShellConnected { session_id: "1".into(), name: "zsh".into() });
    assert_eq!((s.browser_count, s.shell_count), (1, 1));
    s.apply(UiEvent::ShellCountChanged(5));
    assert_eq!(s.shell_count, 5);
    s.apply(UiEvent::RelayDisconnected);
    assert!(s.session_code.is_none() && !s.relay_connected);
}
