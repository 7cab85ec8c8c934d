//! The message types that travel over the WebSocket: JSON control messages on
//! the text channel and the two sink message kinds of the relay.
use vstd::prelude::*;

verus! {

/// One terminal session as listed to a browser.
#[derive(Debug, Clone)]
pub struct SessionInfo {
    pub id: String,
    pub name: String,
}

/// Control messages sent as JSON text frames, tagged by `type` in snake case.
/// Terminal data travels as binary frames and is never wrapped in one of these.
#[derive(Debug, Clone)]
pub enum ControlMessage {
    /// Agent to relay, first message of an agent socket.
    Register { client_id: String },
    /// Relay to agent: the minted session code.
    Registered { code: String },
    /// Relay to agent: a browser attached.
    BrowserConnected { browser_id: String },
    /// Relay to agent: a browser detached.
    BrowserDisconnected { browser_id: String },
    /// Browser to relay, first message of a browser socket.
    Auth { session_code: String },
    /// Relay to browser: the code was accepted.
    AuthSuccess,
    /// Relay to browser: the code was refused.
    AuthFailed { reason: String },
    /// Browser to agent: close one terminal session.
    CloseSession { session_id: String },
    /// Browser to agent: open a new terminal session.
    CreateSession,
    /// Agent to browsers: the terminal sessions on offer.
    SessionList { sessions: Vec<SessionInfo> },
    /// Agent to browsers: a terminal session appeared.
    SessionConnected { session_id: String, name: String },
    /// Agent to browsers: a terminal session went away.
    SessionDisconnected { session_id: String },
    /// Any direction: an error report.
    Error { message: String },
}

/// What the relay queues for a browser socket.
#[derive(Debug, Clone)]
pub enum BrowserMessage {
    /// A binary frame, passed on byte for byte.
    Binary(Vec<u8>),
    /// A JSON text frame, passed on as it came.
    Text(String),
    /// A control message that the relay itself sends.
    Control(ControlMessage),
}

/// What the relay queues for an agent socket.
#[derive(Debug, Clone)]
pub enum MacMessage {
    /// A binary frame, passed on byte for byte.
    Binary(Vec<u8>),
    /// A JSON text frame, passed on as it came.
    Text(String),
    /// A control message that the relay itself sends.
    Control(ControlMessage),
}

} // verus!
