//! The agent's status as shown to its user, and the commands its front end
//! sends to the background tasks.
use vstd::prelude::*;
use crate::text::{chars_of, string_of};

verus! {

/// Events the background tasks send to the front end.
#[derive(Debug, Clone)]
pub enum UiEvent {
    /// Connected to the relay.
    RelayConnected,
    /// Disconnected from the relay.
    RelayDisconnected,
    /// The code the relay minted.
    SessionCode(String),
    /// A browser attached.
    BrowserConnected(String),
    /// A browser detached.
    BrowserDisconnected(String),
    /// The tunnel's public URL.
    TunnelUrl(String),
    /// An error from the relay link.
    RelayError(String),
    /// A terminal session appeared.
    ShellConnected { session_id: String, name: String },
    /// A terminal session went away.
    ShellDisconnected { session_id: String },
    /// A terminal session was renamed.
    ShellRenamed { session_id: String, name: String },
    /// The number of terminal sessions changed.
    ShellCountChanged(usize),
    /// An error from the local session server.
    IpcError(String),
    /// An error from the terminal side.
    PtyError(String),
    /// Output of a terminal session on its way to the relay.
    TerminalDataFromShell { session_id: String, data: Vec<u8> },
    /// Keystrokes from the relay on their way to a terminal session.
    TerminalDataFromRelay { session_id: String, data: Vec<u8> },
}

/// Commands the front end sends to the background tasks.
#[derive(Debug, Clone)]
pub enum BackgroundCommand {
    /// Stop the background tasks.
    Shutdown,
    /// Send terminal output to the relay.
    SendTerminalData { session_id: String, data: Vec<u8> },
    /// Send keystrokes to a terminal session.
    SendToShell { session_id: String, data: Vec<u8> },
    /// Reconnect to the relay, which yields a new code.
    ReconnectRelay,
}

/// What the agent shows: its code, its link state, its counts and its URL.
#[derive(Debug, Clone)]
pub struct AppState {
    pub session_code: Option<String>,
    pub relay_connected: bool,
    pub shell_count: usize,
    pub browser_count: usize,
    pub tunnel_url: Option<String>,
}

pub open spec fn plus_one(n: usize) -> usize {
    if n < usize::MAX {
        (n + 1) as usize
    } else {
        n
    }
}

pub open spec fn minus_one(n: usize) -> usize {
    if n > 0 {
        (n - 1) as usize
    } else {
        0
    }
}

/// The status after an event: counts move by one (never below zero), a
/// disconnect forgets the code, and events that are only logged change nothing.
pub open spec fn status_after(s: AppState, e: UiEvent) -> AppState {
    match e {
        UiEvent::RelayConnected => AppState { relay_connected: true, ..s },
        UiEvent::RelayDisconnected => AppState { relay_connected: false, session_code: None, ..s },
        UiEvent::SessionCode(c) => AppState { session_code: Some(c), ..s },
        UiEvent::BrowserConnected(_) => AppState { browser_count: plus_one(s.browser_count), ..s },
        UiEvent::BrowserDisconnected(_) => AppState {
            browser_count: minus_one(s.browser_count),
            ..s
        },
        UiEvent::TunnelUrl(u) => AppState { tunnel_url: Some(u), ..s },
        UiEvent::ShellConnected { .. } => AppState { shell_count: plus_one(s.shell_count), ..s },
        UiEvent::ShellDisconnected { .. } => AppState { shell_count: minus_one(s.shell_count), ..s },
        UiEvent::ShellCountChanged(n) => AppState { shell_count: n, ..s },
        _ => s,
    }
}

impl AppState {
    pub fn new() -> (r: Self)
        ensures
            r.session_code is None,
            !r.relay_connected,
            r.shell_count == 0,
            r.browser_count == 0,
            r.tunnel_url is None,
    {
        AppState {
            session_code: None,
            relay_connected: false,
            shell_count: 0,
            browser_count: 0,
            tunnel_url: None,
        }
    }

    /// Takes one event into account.
    pub fn apply(&mut self, event: UiEvent)
        ensures
            *final(self) == status_after(*old(self), event),
    {
        match event {
            UiEvent::RelayConnected => {
                self.relay_connected = true;
            },
            UiEvent::RelayDisconnected => {
                self.relay_connected = false;
                self.session_code = None;
            },
            UiEvent::SessionCode(c) => {
                self.session_code = Some(c);
            },
            UiEvent::BrowserConnected(_) => {
                if self.browser_count < usize::MAX {
                    self.browser_count = self.browser_count + 1;
                }
            },
            UiEvent::BrowserDisconnected(_) => {
                if self.browser_count > 0 {
                    self.browser_count = self.browser_count - 1;
                }
            },
            UiEvent::TunnelUrl(u) => {
                self.tunnel_url = Some(u);
            },
            UiEvent::ShellConnected { .. } => {
                if self.shell_count < usize::MAX {
                    self.shell_count = self.shell_count + 1;
                }
            },
            UiEvent::ShellDisconnected { .. } => {
                if self.shell_count > 0 {
                    self.shell_count = self.shell_count - 1;
                }
            },
            UiEvent::ShellCountChanged(n) => {
                self.shell_count = n;
            },
            _ => {},
        }
    }

    /// The code line: `Code: ` and the code, or dashes while there is none.
    pub fn code_display(&self) -> (r: String)
        ensures
            self.session_code matches Some(c) ==> r@ == "Code: "@ + c@,
            self.session_code is None ==> r@ == "Code: ------"@,
    {
        match &self.session_code {
            Some(c) => {
                let mut v = chars_of("Code: ");
                let mut w = chars_of(c.as_str());
                v.append(&mut w);
                string_of(v.as_slice())
            },
            None => "Code: ------".to_owned(),
        }
    }

    /// The status line.
    pub fn status_display(&self) -> (r: String)
        ensures
            self.relay_connected ==> r@ == "Status: Connected"@,
            !self.relay_connected ==> r@ == "Status: Disconnected"@,
    {
        if self.relay_connected {
            "Status: Connected".to_owned()
        } else {
            "Status: Disconnected".to_owned()
        }
    }
}

} // verus!
