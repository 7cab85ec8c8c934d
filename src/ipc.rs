//! Messages of the local session server that shell integrations connect to.
use vstd::prelude::*;

verus! {

/// Where the local session server listens.
pub const SOCKET_PATH: &'static str = "/tmp/terminal-remote.sock";

/// Events of the local session server.
#[derive(Debug, Clone)]
pub enum IpcEvent {
    /// A shell connected.
    SessionConnected { session_id: String, name: String },
    /// A shell disconnected.
    SessionDisconnected { session_id: String },
    /// A shell was renamed (its directory changed).
    SessionRenamed { session_id: String, name: String },
    /// The number of shells changed.
    SessionCountChanged(usize),
    /// Output of a shell.
    TerminalData { session_id: String, data: Vec<u8> },
    /// Something failed.
    Error(String),
}

/// Commands for the local session server.
#[derive(Debug, Clone)]
pub enum IpcCommand {
    /// Keystrokes for a shell.
    WriteToSession { session_id: String, data: Vec<u8> },
}

/// What a shell integration sends first.
#[derive(Debug, Clone)]
pub struct ShellRegistration {
    /// The name to show, such as `zsh - ~/project`.
    pub name: String,
    /// The shell, such as `zsh`.
    pub shell: String,
    /// The shell's process id.
    pub pid: u32,
}

/// What a shell integration sends after registering.
#[derive(Debug, Clone)]
pub enum ShellMessage {
    /// The session has a new name.
    Rename { name: String },
}

} // verus!
