//! The relay endpoint's decisions: what the first message of a socket makes of
//! it, and where each later message of an agent or a browser goes.
use vstd::prelude::*;
use vstd::string::StringSliceAdditionalSpecFns;
use vstd::utf8::encode_utf8;
use crate::frame::{encode_session_frame, frame_bytes, MAX_ID_LEN};
use crate::protocol::ControlMessage;

verus! {

/// The in-band payload that closes one terminal session.
pub const CLOSE_SESSION_PAYLOAD: &'static str = "{\"type\":\"close_session\"}";

/// The first message of a socket, as read off the wire.
pub enum FirstFrame {
    /// A text frame, with what it parsed to (`None`: not a control message).
    Text(Option<ControlMessage>),
    /// A binary frame.
    Binary,
}

/// What a socket turns out to be after its first message.
pub enum Handshake {
    /// An agent that registers with this client id.
    Agent { client_id: String },
    /// A browser that presents this code.
    Browser { session_code: String },
    /// Neither: send this error, then close.
    Reject { reply: ControlMessage },
}

pub open spec fn is_error_with(m: ControlMessage, text: Seq<char>) -> bool {
    m matches ControlMessage::Error { message } && message@ == text
}

/// Sorts a socket by its first message. Only `register` and `auth` open a
/// session; anything else is answered with an `error` and the socket closed.
pub fn classify_first_message(first: FirstFrame) -> (r: Handshake)
    ensures
        first matches FirstFrame::Text(Some(ControlMessage::Register { client_id })) ==> (
        r matches Handshake::Agent { client_id: c } && c == client_id),
        first matches FirstFrame::Text(Some(ControlMessage::Auth { session_code })) ==> (
        r matches Handshake::Browser { session_code: c } && c == session_code),
        first is Binary ==> (r matches Handshake::Reject { reply } && is_error_with(
            reply,
            "First message must be JSON"@,
        )),
        first matches FirstFrame::Text(None) ==> (r matches Handshake::Reject { reply }
            && is_error_with(reply, "Invalid JSON"@)),
        (first matches FirstFrame::Text(Some(m)) && !(m is Register) && !(m is Auth)) ==> (
        r matches Handshake::Reject { reply } && is_error_with(
            reply,
            "First message must be Register or Auth"@,
        )),
{
    proof {
        reveal_strlit("First message must be JSON");
        reveal_strlit("Invalid JSON");
        reveal_strlit("First message must be Register or Auth");
    }
    match first {
        FirstFrame::Binary => Handshake::Reject {
            reply: ControlMessage::Error { message: "First message must be JSON".to_owned() },
        },
        FirstFrame::Text(None) => Handshake::Reject {
            reply: ControlMessage::Error { message: "Invalid JSON".to_owned() },
        },
        FirstFrame::Text(Some(ControlMessage::Register { client_id })) => Handshake::Agent {
            client_id,
        },
        FirstFrame::Text(Some(ControlMessage::Auth { session_code })) => Handshake::Browser {
            session_code,
        },
        FirstFrame::Text(Some(_)) => Handshake::Reject {
            reply: ControlMessage::Error {
                message: "First message must be Register or Auth".to_owned(),
            },
        },
    }
}

/// A later message on a socket.
pub enum SocketInput {
    Binary(Vec<u8>),
    /// A text frame as it came, with what it parsed to.
    Text { raw: String, parsed: Option<ControlMessage> },
    /// A close frame, a read error or the end of the stream.
    Closed,
    /// A ping or a pong.
    Other,
}

/// What the relay does with a message from an agent.
pub enum AgentStep {
    /// Queue this binary frame for every browser of the session.
    BroadcastBinary(Vec<u8>),
    /// Queue this text, as it came, for every browser of the session.
    BroadcastText(String),
    Ignore,
    /// The agent is gone: end the session.
    Teardown,
}

/// What the relay does with a message from a browser.
pub enum BrowserStep {
    /// Queue this binary frame for the agent.
    ToAgentBinary(Vec<u8>),
    /// Queue this text, as it came, for the agent.
    ToAgentText(String),
    Ignore,
    /// The browser is gone: detach it.
    Detach,
}

/// The control messages of an agent that browsers see: session listings and
/// session appearance and disappearance.
pub open spec fn is_forwarded_to_browsers(m: ControlMessage) -> bool {
    m is SessionList || m is SessionConnected || m is SessionDisconnected
}

/// Routes a message from an agent. Binary frames go to every browser as they
/// are; of the text frames only session events do, and unparsable ones are
/// dropped.
pub fn agent_step(input: SocketInput) -> (r: AgentStep)
    ensures
        input matches SocketInput::Binary(d) ==> (r matches AgentStep::BroadcastBinary(e) && e
            == d),
        input matches SocketInput::Text { raw, parsed: Some(m) } ==> if is_forwarded_to_browsers(
            m,
        ) {
            r matches AgentStep::BroadcastText(t) && t == raw
        } else {
            r is Ignore
        },
        input matches SocketInput::Text { parsed: None, .. } ==> r is Ignore,
        input is Closed ==> r is Teardown,
        input is Other ==> r is Ignore,
{
    match input {
        SocketInput::Binary(d) => AgentStep::BroadcastBinary(d),
        SocketInput::Text { raw, parsed: Some(m) } => match m {
            ControlMessage::SessionList { .. } => AgentStep::BroadcastText(raw),
            ControlMessage::SessionConnected { .. } => AgentStep::BroadcastText(raw),
            ControlMessage::SessionDisconnected { .. } => AgentStep::BroadcastText(raw),
            _ => AgentStep::Ignore,
        },
        SocketInput::Text { parsed: None, .. } => AgentStep::Ignore,
        SocketInput::Closed => AgentStep::Teardown,
        SocketInput::Other => AgentStep::Ignore,
    }
}

/// The binary frame that asks the agent to close `session_id`.
pub fn close_session_frame(session_id: &str) -> (r: Option<Vec<u8>>)
    ensures
        r is Some <==> session_id.spec_bytes().len() <= MAX_ID_LEN,
        r matches Some(f) ==> f@ == frame_bytes(
            session_id.spec_bytes(),
            CLOSE_SESSION_PAYLOAD.spec_bytes(),
        ),
{
    match encode_session_frame(session_id, CLOSE_SESSION_PAYLOAD.as_bytes()) {
        Ok(f) => Some(f),
        Err(_) => None,
    }
}

/// Routes a message from a browser. Binary frames go to the agent as they
/// are; `close_session` becomes an in-band frame for that session and
/// `create_session` goes on as text; other text is dropped.
pub fn browser_step(input: SocketInput) -> (r: BrowserStep)
    ensures
        input matches SocketInput::Binary(d) ==> (r matches BrowserStep::ToAgentBinary(e) && e
            == d),
        input matches SocketInput::Text {
            parsed: Some(ControlMessage::CloseSession { session_id }),
            ..
        } ==> if encode_utf8(session_id@).len() <= MAX_ID_LEN {
            r matches BrowserStep::ToAgentBinary(f) && f@ == frame_bytes(
                encode_utf8(session_id@),
                CLOSE_SESSION_PAYLOAD.spec_bytes(),
            )
        } else {
            r is Ignore
        },
        input matches SocketInput::Text { raw, parsed: Some(ControlMessage::CreateSession) } ==> (
        r matches BrowserStep::ToAgentText(t) && t == raw),
        input matches SocketInput::Text { parsed: Some(m), .. } ==> !(m is CloseSession) && !(
        m is CreateSession) ==> r is Ignore,
        input matches SocketInput::Text { parsed: None, .. } ==> r is Ignore,
        input is Closed ==> r is Detach,
        input is Other ==> r is Ignore,
{
    match input {
        SocketInput::Binary(d) => BrowserStep::ToAgentBinary(d),
        SocketInput::Text { raw, parsed: Some(m) } => match m {
            ControlMessage::CloseSession { session_id } => match close_session_frame(
                session_id.as_str(),
            ) {
                Some(f) => BrowserStep::ToAgentBinary(f),
                None => BrowserStep::Ignore,
            },
            ControlMessage::CreateSession => BrowserStep::ToAgentText(raw),
            _ => BrowserStep::Ignore,
        },
        SocketInput::Text { parsed: None, .. } => BrowserStep::Ignore,
        SocketInput::Closed => BrowserStep::Detach,
        SocketInput::Other => BrowserStep::Ignore,
    }
}

} // verus!
