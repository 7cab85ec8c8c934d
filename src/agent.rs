//! The agent's side of the relay link: what inbound frames mean, what each
//! outbound command puts on the wire, and when to reconnect.
use vstd::prelude::*;
use vstd::arithmetic::power2::{pow2, lemma2_to64};
use vstd::utf8::encode_utf8;
use crate::frame::{decode_frame, encode_session_frame, frame_parts, is_malformed, frame_bytes, lossy_text, text_of_bytes, MAX_ID_LEN};
use crate::protocol::{ControlMessage, SessionInfo};

verus! {

/// Events the relay link reports to the rest of the agent.
#[derive(Debug, Clone)]
pub enum RelayEvent {
    /// Connected to the relay.
    Connected,
    /// Disconnected from the relay (a reconnect follows).
    Disconnected,
    /// The code the relay minted for this agent.
    SessionCode(String),
    /// A browser attached.
    BrowserConnected(String),
    /// A browser detached.
    BrowserDisconnected(String),
    /// An error the relay reported.
    Error(String),
    /// Keystrokes for a terminal session.
    TerminalData { session_id: String, data: Vec<u8> },
    /// A browser resized a terminal session.
    Resize { session_id: String, cols: u16, rows: u16 },
    /// A browser asked to close a terminal session.
    CloseSession { session_id: String },
    /// A browser asked for a new terminal session.
    CreateSession,
}

/// What the rest of the agent asks the relay link to send.
#[derive(Debug, Clone)]
pub enum RelayCommand {
    /// Terminal output of a session.
    SendTerminalData { session_id: String, data: Vec<u8> },
    /// The sessions on offer, as (id, name) pairs.
    SendSessionList { sessions: Vec<(String, String)> },
    /// A session appeared.
    SendSessionConnected { session_id: String, name: String },
    /// A session went away.
    SendSessionDisconnected { session_id: String },
    /// Close the link and reconnect, which yields a new code.
    Reconnect,
}

/// What goes on the wire for a command.
#[derive(Debug, Clone)]
pub enum Outbound {
    Binary(Vec<u8>),
    Control(ControlMessage),
    /// A close frame.
    Close,
}

/// Control messages that travel in-band in a frame's payload.
#[derive(Debug, Clone, Copy, PartialEq, Eq, Structural)]
pub enum InbandControl {
    Resize { cols: u16, rows: u16 },
    CloseSession,
}

/// Turns a text message from the relay into an event. Messages meant for
/// browsers and unknown ones give none.
pub fn text_event(msg: ControlMessage) -> (r: Option<RelayEvent>)
    ensures
        msg matches ControlMessage::Registered { code } ==> r == Some(RelayEvent::SessionCode(code)),
        msg matches ControlMessage::BrowserConnected { browser_id } ==> r == Some(
            RelayEvent::BrowserConnected(browser_id),
        ),
        msg matches ControlMessage::BrowserDisconnected { browser_id } ==> r == Some(
            RelayEvent::BrowserDisconnected(browser_id),
        ),
        msg matches ControlMessage::Error { message } ==> r == Some(RelayEvent::Error(message)),
        msg is CreateSession ==> r == Some(RelayEvent::CreateSession),
        !(msg is Registered || msg is BrowserConnected || msg is BrowserDisconnected
            || msg is Error || msg is CreateSession) ==> r is None,
{
    match msg {
        ControlMessage::Registered { code } => Some(RelayEvent::SessionCode(code)),
        ControlMessage::BrowserConnected { browser_id } => Some(
            RelayEvent::BrowserConnected(browser_id),
        ),
        ControlMessage::BrowserDisconnected { browser_id } => Some(
            RelayEvent::BrowserDisconnected(browser_id),
        ),
        ControlMessage::Error { message } => Some(RelayEvent::Error(message)),
        ControlMessage::CreateSession => Some(RelayEvent::CreateSession),
        _ => None,
    }
}

fn same_text(s: &String, lit: &str) -> (r: bool)
    ensures
        r == (s@ == lit@),
{
    let l = lit.to_owned();
    *s == l
}

/// The text of an optional string.
pub open spec fn text_view(o: Option<String>) -> Option<Seq<char>> {
    match o {
        Some(t) => Some(t@),
        None => None,
    }
}

/// What the fields of an in-band JSON payload mean: `type` `resize` with both
/// `cols` and `rows` is a resize (each taken modulo 2^16), `type`
/// `close_session` a close; anything else is none.
pub open spec fn inband_reading(type_tag: Option<Seq<char>>, cols: Option<u64>, rows: Option<u64>) -> Option<InbandControl> {
    match type_tag {
        Some(t) => if t == "resize"@ {
            match (cols, rows) {
                (Some(c), Some(w)) => Some(InbandControl::Resize { cols: c as u16, rows: w as u16 }),
                _ => None,
            }
        } else if t == "close_session"@ {
            Some(InbandControl::CloseSession)
        } else {
            None
        },
        None => None,
    }
}

/// Reads the fields of an in-band JSON payload, as `inband_reading` says.
pub fn inband_control(type_tag: Option<String>, cols: Option<u64>, rows: Option<u64>) -> (r: Option<
    InbandControl,
>)
    ensures
        r == inband_reading(text_view(type_tag), cols, rows),
{
    proof {
        reveal_strlit("resize");
        reveal_strlit("close_session");
    }
    match type_tag {
        None => None,
        Some(t) => {
            if same_text(&t, "resize") {
                match (cols, rows) {
                    (Some(c), Some(w)) => Some(
                        InbandControl::Resize {
                            cols: #[verifier::truncate] (c as u16),
                            rows: #[verifier::truncate] (w as u16),
                        },
                    ),
                    _ => None,
                }
            } else if same_text(&t, "close_session") {
                Some(InbandControl::CloseSession)
            } else {
                None
            }
        },
    }
}

/// The event for a payload of a session, given its in-band reading: a
/// control message where there is one, keystrokes otherwise.
pub open spec fn event_for(session_id: String, payload: Vec<u8>, control: Option<InbandControl>) -> RelayEvent {
    match control {
        None => RelayEvent::TerminalData { session_id, data: payload },
        Some(InbandControl::Resize { cols, rows }) => RelayEvent::Resize { session_id, cols, rows },
        Some(InbandControl::CloseSession) => RelayEvent::CloseSession { session_id },
    }
}

/// Builds the event for a payload from its in-band reading.
pub fn inband_event(session_id: String, payload: Vec<u8>, control: Option<InbandControl>) -> (r:
    RelayEvent)
    ensures
        r == event_for(session_id, payload, control),
{
    match control {
        None => RelayEvent::TerminalData { session_id, data: payload },
        Some(InbandControl::Resize { cols, rows }) => RelayEvent::Resize { session_id, cols, rows },
        Some(InbandControl::CloseSession) => RelayEvent::CloseSession { session_id },
    }
}

/// A name for the text of member `key` of the JSON object that `b` holds
/// (`None`: not JSON, no such member, or not a string).
pub uninterp spec fn json_text_field(b: Seq<u8>, key: Seq<char>) -> Option<Seq<char>>;

/// A name for the `u64` value of member `key` of the JSON object that `b`
/// holds (`None`: not JSON, no such member, or no integer that fits).
pub uninterp spec fn json_u64_field(b: Seq<u8>, key: Seq<char>) -> Option<u64>;

/// Relies on serde_json: `from_slice` parses the bytes as one JSON document,
/// `Value::get` picks the member `key` of an object and `Value::as_str` its
/// text. The result depends on the bytes and the key alone.
#[verifier::external_body]
fn json_text_member(b: &[u8], key: &str) -> (r: Option<String>)
    ensures
        text_view(r) == json_text_field(b@, key@),
{
    match serde_json::from_slice::<serde_json::Value>(b) {
        Ok(v) => v.get(key).and_then(serde_json::Value::as_str).map(String::from),
        Err(_) => None,
    }
}

/// Relies on serde_json: `from_slice` parses the bytes as one JSON document,
/// `Value::get` picks the member `key` of an object and `Value::as_u64` reads
/// it as an integer that fits in `u64`. The result depends on the bytes and
/// the key alone.
#[verifier::external_body]
fn json_u64_member(b: &[u8], key: &str) -> (r: Option<u64>)
    ensures
        r == json_u64_field(b@, key@),
{
    match serde_json::from_slice::<serde_json::Value>(b) {
        Ok(v) => v.get(key).and_then(serde_json::Value::as_u64),
        Err(_) => None,
    }
}

/// Whether a payload is read as in-band JSON: it starts with `{`.
pub open spec fn starts_inband(p: Seq<u8>) -> bool {
    p.len() > 0 && p[0] == 0x7b
}

/// The in-band reading of a payload: none unless it starts with `{`, else
/// what its `type`, `cols` and `rows` members say.
pub open spec fn payload_reading(p: Seq<u8>) -> Option<InbandControl> {
    if starts_inband(p) {
        inband_reading(json_text_field(p, "type"@), json_u64_field(p, "cols"@), json_u64_field(p, "rows"@))
    } else {
        None
    }
}

/// The event for one payload of a session. A payload that does not start
/// with `{` is keystrokes as it stands; one that does is read as JSON, and is
/// keystrokes too unless it is a resize or a close.
pub fn payload_event(session_id: String, payload: Vec<u8>) -> (r: RelayEvent)
    ensures
        r == event_for(session_id, payload, payload_reading(payload@)),
{
    if payload.len() > 0 && payload[0] == 0x7b {
        let control = inband_control(
            json_text_member(payload.as_slice(), "type"),
            json_u64_member(payload.as_slice(), "cols"),
            json_u64_member(payload.as_slice(), "rows"),
        );
        inband_event(session_id, payload, control)
    } else {
        RelayEvent::TerminalData { session_id, data: payload }
    }
}

/// `e` is the event for payload `p` of the session whose id reads `id`.
pub open spec fn event_reads(e: RelayEvent, id: Seq<char>, p: Seq<u8>) -> bool {
    match payload_reading(p) {
        None => e matches RelayEvent::TerminalData { session_id, data } && session_id@ == id
            && data@ == p,
        Some(InbandControl::Resize { cols, rows }) => e matches RelayEvent::Resize {
            session_id,
            cols: c,
            rows: w,
        } && session_id@ == id && c == cols && w == rows,
        Some(InbandControl::CloseSession) => e matches RelayEvent::CloseSession { session_id }
            && session_id@ == id,
    }
}

/// Turns a binary frame from the relay into an event; a malformed frame
/// (shorter than `1 + L`) gives none. The session id is the frame's id bytes
/// read as UTF-8.
pub fn binary_event(data: &[u8]) -> (r: Option<RelayEvent>)
    ensures
        r is None <==> is_malformed(data@),
        r matches Some(e) ==> frame_parts(data@) matches Some((id, p)) && event_reads(
            e,
            lossy_text(id),
            p,
        ),
{
    match decode_frame(data) {
        None => None,
        Some(f) => {
            let session_id = text_of_bytes(f.session_id.as_slice());
            Some(payload_event(session_id, f.payload))
        },
    }
}

/// Puts a command on the wire: terminal output as a frame (none where the
/// session id is over 255 bytes), session events as control messages, and a
/// reconnect as a close frame.
pub fn command_outbound(cmd: RelayCommand) -> (r: Option<Outbound>)
    ensures
        cmd matches RelayCommand::SendTerminalData { session_id, data } ==> if encode_utf8(
            session_id@,
        ).len() <= MAX_ID_LEN {
            r matches Some(Outbound::Binary(f)) && f@ == frame_bytes(encode_utf8(session_id@), data@)
        } else {
            r is None
        },
        cmd matches RelayCommand::SendSessionList { sessions } ==> (r matches Some(
            Outbound::Control(ControlMessage::SessionList { sessions: infos }),
        ) && infos@.len() == sessions@.len() && forall|k: int|
            0 <= k < infos@.len() ==> (#[trigger] infos@[k]).id == sessions@[k].0 && infos@[k].name
                == sessions@[k].1),
        cmd matches RelayCommand::SendSessionConnected { session_id, name } ==> r == Some(
            Outbound::Control(ControlMessage::SessionConnected { session_id, name }),
        ),
        cmd matches RelayCommand::SendSessionDisconnected { session_id } ==> r == Some(
            Outbound::Control(ControlMessage::SessionDisconnected { session_id }),
        ),
        cmd is Reconnect ==> r == Some(Outbound::Close),
{
    match cmd {
        RelayCommand::SendTerminalData { session_id, data } => {
            match encode_session_frame(session_id.as_str(), data.as_slice()) {
                Ok(f) => Some(Outbound::Binary(f)),
                Err(_) => None,
            }
        },
        RelayCommand::SendSessionList { sessions } => {
            let ghost all = sessions@;
            let mut rest = sessions;
            let mut infos: Vec<SessionInfo> = Vec::new();
            let ghost mut done: int = 0;
            while rest.len() > 0
                invariant
                    0 <= done <= all.len(),
                    rest@ == all.subrange(done, all.len() as int),
                    infos@.len() == done,
                    forall|k: int|
                        0 <= k < done ==> (#[trigger] infos@[k]).id == all[k].0 && infos@[k].name
                            == all[k].1,
                decreases rest.len(),
            {
                let (id, name) = rest.remove(0);
                infos.push(SessionInfo { id, name });
                proof {
                    done = done + 1;
                    assert(rest@ =~= all.subrange(done, all.len() as int));
                }
            }
            Some(Outbound::Control(ControlMessage::SessionList { sessions: infos }))
        },
        RelayCommand::SendSessionConnected { session_id, name } => Some(
            Outbound::Control(ControlMessage::SessionConnected { session_id, name }),
        ),
        RelayCommand::SendSessionDisconnected { session_id } => Some(
            Outbound::Control(ControlMessage::SessionDisconnected { session_id }),
        ),
        RelayCommand::Reconnect => Some(Outbound::Close),
    }
}

/// The delay before reconnect attempt `n` (counting from 0): `2^min(n, 5)` seconds.
pub open spec fn backoff_delay(n: nat) -> nat {
    pow2(if n < 5 { n } else { 5 })
}

/// The delay, in seconds, before reconnect attempt `attempts`.
pub fn reconnect_delay_secs(attempts: u32) -> (r: u64)
    ensures
        r == backoff_delay(attempts as nat),
{
    let e: u32 = if attempts < 5 { attempts } else { 5 };
    let mut d: u64 = 1;
    let mut i: u32 = 0;
    proof {
        lemma2_to64();
    }
    while i < e
        invariant
            i <= e <= 5,
            d == pow2(i as nat),
        decreases e - i,
    {
        proof {
            lemma2_to64();
            vstd::arithmetic::power2::lemma_pow2_unfold((i + 1) as nat);
        }
        d = d * 2;
        i += 1;
    }
    d
}

/// Counts reconnect attempts since the last successful registration.
#[derive(Debug, Clone, Copy, PartialEq, Eq, Structural)]
pub struct ReconnectPolicy {
    pub attempts: u32,
}

impl ReconnectPolicy {
    pub fn new() -> (r: Self)
        ensures
            r.attempts == 0,
    {
        ReconnectPolicy { attempts: 0 }
    }

    /// The delay before the next attempt; the attempt is counted.
    pub fn next_delay(&mut self) -> (r: u64)
        ensures
            r == backoff_delay(old(self).attempts as nat),
            final(self).attempts == if old(self).attempts < u32::MAX {
                old(self).attempts + 1
            } else {
                old(self).attempts as int
            },
    {
        let r = reconnect_delay_secs(self.attempts);
        if self.attempts < u32::MAX {
            self.attempts = self.attempts + 1;
        }
        r
    }

    /// A registration succeeded: the count starts over.
    pub fn on_registered(&mut self)
        ensures
            final(self).attempts == 0,
    {
        self.attempts = 0;
    }
}

/// Reconnect delays after repeated failures run 1, 2, 4, 8, 16 seconds and
/// then stay at 32: from a fresh count, the `k`-th delay handed out is
/// `backoff_delay(k)`, and so on for every `k`.
pub proof fn lemma_backoff_schedule(k: nat)
    ensures
        backoff_delay(0) == 1,
        backoff_delay(1) == 2,
        backoff_delay(2) == 4,
        backoff_delay(3) == 8,
        backoff_delay(4) == 16,
        k >= 5 ==> backoff_delay(k) == 32,
        k < 5 ==> backoff_delay(k) < backoff_delay(k + 1),
{
    lemma2_to64();
}

/// Where the agent's link to the relay stands.
#[derive(Debug, Clone, Copy, PartialEq, Eq, Structural)]
pub enum LinkState {
    /// Opening the WebSocket.
    Connecting,
    /// Open; `register` sent, waiting for the code.
    AwaitingCode,
    /// Registered; serving traffic.
    Registered,
    /// Closing on request.
    Draining,
    /// Closed; waiting out the backoff delay.
    Disconnected,
}

/// What happened on the link.
#[derive(Debug, Clone, Copy, PartialEq, Eq, Structural)]
pub enum LinkEvent {
    /// The WebSocket opened.
    Opened,
    /// The relay answered `registered`.
    Registered,
    /// The WebSocket closed or failed (also: the connect attempt failed).
    Closed,
    /// The user asked for a new code.
    ReconnectRequested,
    /// The backoff delay is over.
    DelayElapsed,
}

/// What the link's owner does next.
#[derive(Debug, Clone)]
pub enum LinkAction {
    Connect,
    Send(ControlMessage),
    SendClose,
    /// Sleep this many seconds, then report `DelayElapsed`.
    Sleep(u64),
    Nothing,
}

/// The state the link moves to.
pub open spec fn link_next(s: LinkState, e: LinkEvent) -> LinkState {
    match (s, e) {
        (LinkState::Connecting, LinkEvent::Opened) => LinkState::AwaitingCode,
        (LinkState::AwaitingCode, LinkEvent::Registered) => LinkState::Registered,
        (LinkState::AwaitingCode, LinkEvent::ReconnectRequested) => LinkState::Draining,
        (LinkState::Registered, LinkEvent::ReconnectRequested) => LinkState::Draining,
        (LinkState::Disconnected, LinkEvent::DelayElapsed) => LinkState::Connecting,
        (LinkState::Disconnected, LinkEvent::Closed) => LinkState::Disconnected,
        (_, LinkEvent::Closed) => LinkState::Disconnected,
        _ => s,
    }
}

/// The agent's link to the relay: connect, register under its client id,
/// serve, and after every close wait `2^min(n, 5)` seconds before trying
/// again, `n` counting the closes since the last registration.
pub struct RelayLink {
    pub state: LinkState,
    pub policy: ReconnectPolicy,
    pub client_id: String,
}

impl RelayLink {
    /// A link that is about to connect, under a fresh random client id.
    pub fn new() -> (r: Self)
        ensures
            r.state == LinkState::Connecting,
            r.policy.attempts == 0,
            r.client_id@.len() == crate::code::UUID_TEXT_LEN,
    {
        RelayLink {
            state: LinkState::Connecting,
            policy: ReconnectPolicy::new(),
            client_id: crate::code::random_uuid(),
        }
    }

    /// Takes one event and says what to do.
    pub fn step(&mut self, event: LinkEvent) -> (r: LinkAction)
        ensures
            final(self).state == link_next(old(self).state, event),
            final(self).client_id == old(self).client_id,
            (old(self).state == LinkState::Connecting && event == LinkEvent::Opened) ==> (
            r matches LinkAction::Send(ControlMessage::Register { client_id }) && client_id@
                == old(self).client_id@) && final(self).policy == old(self).policy,
            (old(self).state == LinkState::AwaitingCode && event == LinkEvent::Registered) ==> (
            r is Nothing && final(self).policy.attempts == 0),
            (old(self).state != LinkState::Disconnected && event == LinkEvent::Closed) ==> (
            r matches LinkAction::Sleep(d) && d == backoff_delay(old(self).policy.attempts as nat)
                && final(self).policy.attempts == if old(self).policy.attempts < u32::MAX {
                old(self).policy.attempts + 1
            } else {
                old(self).policy.attempts as int
            }),
            ((old(self).state == LinkState::AwaitingCode || old(self).state == LinkState::Registered)
                && event == LinkEvent::ReconnectRequested) ==> r is SendClose && final(self).policy
                == old(self).policy,
            (old(self).state == LinkState::Disconnected && event == LinkEvent::DelayElapsed) ==> (
            r is Connect && final(self).policy == old(self).policy),
            link_next(old(self).state, event) == old(self).state && event != LinkEvent::Registered
                ==> r is Nothing && final(self).policy == old(self).policy,
    {
        let next = match (self.state, event) {
            (LinkState::Connecting, LinkEvent::Opened) => LinkState::AwaitingCode,
            (LinkState::AwaitingCode, LinkEvent::Registered) => LinkState::Registered,
            (LinkState::AwaitingCode, LinkEvent::ReconnectRequested) => LinkState::Draining,
            (LinkState::Registered, LinkEvent::ReconnectRequested) => LinkState::Draining,
            (LinkState::Disconnected, LinkEvent::DelayElapsed) => LinkState::Connecting,
            (LinkState::Disconnected, LinkEvent::Closed) => LinkState::Disconnected,
            (_, LinkEvent::Closed) => LinkState::Disconnected,
            _ => self.state,
        };
        let action = match (self.state, event) {
            (LinkState::Connecting, LinkEvent::Opened) => LinkAction::Send(
                ControlMessage::Register { client_id: self.client_id.clone() },
            ),
            (LinkState::AwaitingCode, LinkEvent::Registered) => {
                self.policy.on_registered();
                LinkAction::Nothing
            },
            (LinkState::AwaitingCode, LinkEvent::ReconnectRequested) => LinkAction::SendClose,
            (LinkState::Registered, LinkEvent::ReconnectRequested) => LinkAction::SendClose,
            (LinkState::Disconnected, LinkEvent::DelayElapsed) => LinkAction::Connect,
            (LinkState::Disconnected, LinkEvent::Closed) => LinkAction::Nothing,
            (_, LinkEvent::Closed) => LinkAction::Sleep(self.policy.next_delay()),
            _ => LinkAction::Nothing,
        };
        self.state = next;
        action
    }
}

} // verus!
