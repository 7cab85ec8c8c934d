//! The agent's fan-in router: it keeps the list of terminal sessions on offer
//! and decides where each event of the relay link, of the session manager and
//! of the front end goes.
use vstd::prelude::*;
use crate::agent::{RelayCommand, RelayEvent};
use crate::tmux::{TmuxCommand, TmuxEvent};
use crate::ui::{BackgroundCommand, UiEvent};

verus! {

/// The texts of a list of (id, name) pairs.
pub open spec fn pair_texts(v: Seq<(String, String)>) -> Seq<(Seq<char>, Seq<char>)> {
    v.map_values(|p: (String, String)| (p.0@, p.1@))
}

/// The terminal sessions on offer, as (id, name) pairs in the order they appeared.
pub struct SessionDirectory {
    entries: Vec<(String, String)>,
}

impl SessionDirectory {
    pub closed spec fn view_pairs(&self) -> Seq<(Seq<char>, Seq<char>)> {
        pair_texts(self.entries@)
    }

    pub fn new() -> (r: Self)
        ensures
            r.view_pairs().len() == 0,
    {
        let r = SessionDirectory { entries: Vec::new() };
        proof {
            assert(pair_texts(r.entries@) =~= Seq::<(Seq<char>, Seq<char>)>::empty());
        }
        r
    }

    /// A session appeared.
    pub fn attached(&mut self, session_id: String, name: String)
        ensures
            final(self).view_pairs() == old(self).view_pairs().push((session_id@, name@)),
    {
        let ghost prev = self.view_pairs();
        self.entries.push((session_id, name));
        proof {
            assert(self.view_pairs() =~= prev.push((session_id@, name@)));
        }
    }

    /// A session went away: every entry with its id is dropped.
    pub fn detached(&mut self, session_id: &str)
        ensures
            final(self).view_pairs() == old(self).view_pairs().filter(
                |p: (Seq<char>, Seq<char>)| p.0 != session_id@,
            ),
    {
        let ghost all = self.view_pairs();
        let id = session_id.to_owned();
        let mut kept: Vec<(String, String)> = Vec::new();
        let mut i: usize = 0;
        while i < self.entries.len()
            invariant
                i <= self.entries@.len(),
                all == pair_texts(self.entries@),
                id@ == session_id@,
                pair_texts(kept@) == all.subrange(0, i as int).filter(
                    |p: (Seq<char>, Seq<char>)| p.0 != session_id@,
                ),
            decreases self.entries.len() - i,
        {
            let ghost prev = pair_texts(kept@);
            if self.entries[i].0 != id {
                let e = (self.entries[i].0.clone(), self.entries[i].1.clone());
                kept.push(e);
                proof {
                    assert(pair_texts(kept@) =~= prev.push(all[i as int]));
                }
            }
            proof {
                reveal(Seq::filter);
                assert(all.subrange(0, i + 1).drop_last() =~= all.subrange(0, i as int));
            }
            i += 1;
        }
        proof {
            assert(all.subrange(0, i as int) =~= all);
        }
        self.entries = kept;
    }

    /// A copy of the list, for a browser that just attached.
    pub fn snapshot(&self) -> (r: Vec<(String, String)>)
        ensures
            pair_texts(r@) == self.view_pairs(),
    {
        let mut r: Vec<(String, String)> = Vec::new();
        let mut i: usize = 0;
        while i < self.entries.len()
            invariant
                i <= self.entries@.len(),
                pair_texts(r@) == pair_texts(self.entries@).subrange(0, i as int),
            decreases self.entries.len() - i,
        {
            let ghost prev = pair_texts(r@);
            r.push((self.entries[i].0.clone(), self.entries[i].1.clone()));
            proof {
                assert(pair_texts(r@) =~= prev.push(pair_texts(self.entries@)[i as int]));
                assert(pair_texts(self.entries@).subrange(0, i + 1) =~= pair_texts(
                    self.entries@,
                ).subrange(0, i as int).push(pair_texts(self.entries@)[i as int]));
            }
            i += 1;
        }
        proof {
            assert(pair_texts(self.entries@).subrange(0, i as int) =~= pair_texts(self.entries@));
        }
        r
    }
}

/// Where an event of the relay link goes.
pub struct RelayRouting {
    pub ui: Option<UiEvent>,
    pub tmux: Option<TmuxCommand>,
    pub relay: Option<RelayCommand>,
    /// Open a new terminal window on the agent's machine.
    pub open_terminal: bool,
}

/// Routes an event of the relay link. A browser that attaches is sent the
/// session list; keystrokes, resizes and closes go to the session manager
/// (keystrokes are also reported to the front end); a request for a new
/// session opens a terminal window; the rest is shown.
pub fn route_relay_event(dir: &SessionDirectory, event: RelayEvent) -> (r: RelayRouting)
    ensures
        event is Connected ==> r.ui == Some(UiEvent::RelayConnected) && r.tmux is None
            && r.relay is None && !r.open_terminal,
        event is Disconnected ==> r.ui == Some(UiEvent::RelayDisconnected) && r.tmux is None
            && r.relay is None && !r.open_terminal,
        event matches RelayEvent::SessionCode(c) ==> r.ui == Some(UiEvent::SessionCode(c))
            && r.tmux is None && r.relay is None && !r.open_terminal,
        event matches RelayEvent::BrowserConnected(id) ==> r.ui == Some(
            UiEvent::BrowserConnected(id),
        ) && r.tmux is None && !r.open_terminal && (r.relay matches Some(
            RelayCommand::SendSessionList { sessions },
        ) && pair_texts(sessions@) == dir.view_pairs()),
        event matches RelayEvent::BrowserDisconnected(id) ==> r.ui == Some(
            UiEvent::BrowserDisconnected(id),
        ) && r.tmux is None && r.relay is None && !r.open_terminal,
        event matches RelayEvent::Error(m) ==> r.ui == Some(UiEvent::RelayError(m)) && r.tmux is None
            && r.relay is None && !r.open_terminal,
        event matches RelayEvent::TerminalData { session_id, data } ==> r.relay is None
            && !r.open_terminal && (r.tmux matches Some(
            TmuxCommand::Write { session_id: s, data: d },
        ) && s == session_id && d == data) && (r.ui matches Some(
            UiEvent::TerminalDataFromRelay { session_id: s, data: d },
        ) && s@ == session_id@ && d@ == data@),
        event matches RelayEvent::Resize { session_id, cols, rows } ==> r.ui is None
            && r.relay is None && !r.open_terminal && (r.tmux matches Some(
            TmuxCommand::Resize { session_id: s, cols: c, rows: w },
        ) && s == session_id && c == cols && w == rows),
        event matches RelayEvent::CloseSession { session_id } ==> r.ui is None && r.relay is None
            && !r.open_terminal && (r.tmux matches Some(TmuxCommand::KillSessionById { session_id: s })
            && s == session_id),
        event is CreateSession ==> r.ui is None && r.relay is None && r.tmux is None
            && r.open_terminal,
{
    let none = RelayRouting { ui: None, tmux: None, relay: None, open_terminal: false };
    match event {
        RelayEvent::Connected => RelayRouting { ui: Some(UiEvent::RelayConnected), ..none },
        RelayEvent::Disconnected => RelayRouting { ui: Some(UiEvent::RelayDisconnected), ..none },
        RelayEvent::SessionCode(c) => RelayRouting { ui: Some(UiEvent::SessionCode(c)), ..none },
        RelayEvent::BrowserConnected(id) => RelayRouting {
            ui: Some(UiEvent::BrowserConnected(id)),
            relay: Some(RelayCommand::SendSessionList { sessions: dir.snapshot() }),
            ..none
        },
        RelayEvent::BrowserDisconnected(id) => RelayRouting {
            ui: Some(UiEvent::BrowserDisconnected(id)),
            ..none
        },
        RelayEvent::Error(m) => RelayRouting { ui: Some(UiEvent::RelayError(m)), ..none },
        RelayEvent::TerminalData { session_id, data } => RelayRouting {
            ui: Some(
                UiEvent::TerminalDataFromRelay { session_id: session_id.clone(), data: data.clone() },
            ),
            tmux: Some(TmuxCommand::Write { session_id, data }),
            ..none
        },
        RelayEvent::Resize { session_id, cols, rows } => RelayRouting {
            tmux: Some(TmuxCommand::Resize { session_id, cols, rows }),
            ..none
        },
        RelayEvent::CloseSession { session_id } => RelayRouting {
            tmux: Some(TmuxCommand::KillSessionById { session_id }),
            ..none
        },
        RelayEvent::CreateSession => RelayRouting { open_terminal: true, ..none },
    }
}

/// Where an event of the session manager goes.
pub struct TmuxRouting {
    pub ui: Option<UiEvent>,
    pub relay: Option<RelayCommand>,
}

/// Routes an event of the session manager and keeps the session list up to
/// date: an attach adds the session and announces it, a detach removes and
/// announces it, output goes to the relay and errors are shown.
pub fn route_tmux_event(dir: &mut SessionDirectory, event: TmuxEvent) -> (r: TmuxRouting)
    ensures
        event matches TmuxEvent::Attached { session_id, session_name } ==> final(dir).view_pairs()
            == old(dir).view_pairs().push((session_id@, session_name@)) && (r.relay matches Some(
            RelayCommand::SendSessionConnected { session_id: s, name: n },
        ) && s@ == session_id@ && n@ == session_name@) && (r.ui matches Some(
            UiEvent::ShellConnected { session_id: s, name: n },
        ) && s@ == session_id@ && n@ == session_name@),
        event matches TmuxEvent::Detached { session_id } ==> final(dir).view_pairs() == old(
            dir,
        ).view_pairs().filter(|p: (Seq<char>, Seq<char>)| p.0 != session_id@) && (r.relay matches Some(
            RelayCommand::SendSessionDisconnected { session_id: s },
        ) && s@ == session_id@) && (r.ui matches Some(UiEvent::ShellDisconnected { session_id: s })
            && s@ == session_id@),
        event matches TmuxEvent::Output { session_id, data } ==> final(dir).view_pairs() == old(
            dir,
        ).view_pairs() && r.ui is None && r.relay == Some(
            RelayCommand::SendTerminalData { session_id, data },
        ),
        event matches TmuxEvent::Error(m) ==> final(dir).view_pairs() == old(dir).view_pairs()
            && r.relay is None && r.ui == Some(UiEvent::PtyError(m)),
        event is SessionList ==> final(dir).view_pairs() == old(dir).view_pairs() && r.relay is None
            && r.ui is None,
{
    match event {
        TmuxEvent::Attached { session_id, session_name } => {
            dir.attached(session_id.clone(), session_name.clone());
            TmuxRouting {
                relay: Some(
                    RelayCommand::SendSessionConnected {
                        session_id: session_id.clone(),
                        name: session_name.clone(),
                    },
                ),
                ui: Some(UiEvent::ShellConnected { session_id, name: session_name }),
            }
        },
        TmuxEvent::Detached { session_id } => {
            dir.detached(session_id.as_str());
            TmuxRouting {
                relay: Some(RelayCommand::SendSessionDisconnected { session_id: session_id.clone() }),
                ui: Some(UiEvent::ShellDisconnected { session_id }),
            }
        },
        TmuxEvent::Output { session_id, data } => TmuxRouting {
            ui: None,
            relay: Some(RelayCommand::SendTerminalData { session_id, data }),
        },
        TmuxEvent::Error(m) => TmuxRouting { ui: Some(UiEvent::PtyError(m)), relay: None },
        TmuxEvent::SessionList(_) => TmuxRouting { ui: None, relay: None },
    }
}

/// Where a command of the front end goes.
pub enum BackgroundStep {
    /// Stop the background tasks.
    Stop,
    Relay(RelayCommand),
    Tmux(TmuxCommand),
}

/// Routes a command of the front end: output to the relay, keystrokes to the
/// session manager, a reconnect to the relay link.
pub fn background_step(cmd: BackgroundCommand) -> (r: BackgroundStep)
    ensures
        cmd is Shutdown ==> r is Stop,
        cmd matches BackgroundCommand::SendTerminalData { session_id, data } ==> (r matches BackgroundStep::Relay(RelayCommand::SendTerminalData { session_id: s, data: d }) && s == session_id && d == data),
        cmd matches BackgroundCommand::SendToShell { session_id, data } ==> (r matches BackgroundStep::Tmux(TmuxCommand::Write { session_id: s, data: d }) && s == session_id && d == data),
        cmd is ReconnectRelay ==> (r matches BackgroundStep::Relay(c) && c is Reconnect),
{
    match cmd {
        BackgroundCommand::Shutdown => BackgroundStep::Stop,
        BackgroundCommand::SendTerminalData { session_id, data } => BackgroundStep::Relay(
            RelayCommand::SendTerminalData { session_id, data },
        ),
        BackgroundCommand::SendToShell { session_id, data } => BackgroundStep::Tmux(
            TmuxCommand::Write { session_id, data },
        ),
        BackgroundCommand::ReconnectRelay => BackgroundStep::Relay(RelayCommand::Reconnect),
    }
}

} // verus!
