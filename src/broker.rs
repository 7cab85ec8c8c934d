//! The relay's session broker: the active sessions, each with its agent sink
//! and the sinks of the browsers attached to it, keyed by session code.
//!
//! The broker decides; the sinks are the caller's own type `A` / `B`, and the
//! caller queues on them what the broker hands back.
use vstd::prelude::*;
use crate::code::{
    is_code, normalized, generate_session_code, generate_browser_id, normalize_code,
    lemma_code_case_insensitive,
};
use crate::protocol::{BrowserMessage, ControlMessage};
use crate::text::lower_seq;
use crate::tmux::{contains_name, names};

verus! {

/// How many fresh codes (or browser ids) are drawn before giving up.
pub const MAX_MINT_ATTEMPTS: usize = 8;

/// A browser attached to a session.
pub struct BrowserSlot<B> {
    pub browser_id: String,
    pub sink: B,
}

/// One relay session: an agent and the browsers that presented its code.
pub struct Session<A, B> {
    pub code: String,
    pub client_id: String,
    pub agent: A,
    pub browsers: Vec<BrowserSlot<B>>,
}

/// A message to queue on a sink.
pub struct Delivery<S> {
    pub sink: S,
    pub message: BrowserMessage,
}

/// Why an agent could not be registered.
#[derive(Debug, Clone, Copy, PartialEq, Eq, Structural)]
pub enum RegisterError {
    /// Every code drawn was already in use.
    CodeSpaceExhausted,
}

/// What came of a browser's `auth`.
pub enum AuthOutcome<B> {
    /// The browser is attached under `browser_id` to the session `code`.
    Accepted { code: String, browser_id: String },
    /// No session has that code; the sink is handed back with the reply to send.
    Refused { sink: B, reply: ControlMessage },
}

/// The active sessions.
pub struct AppState<A, B> {
    sessions: Vec<Session<A, B>>,
}

pub open spec fn has_session<A, B>(ss: Seq<Session<A, B>>, code: Seq<char>) -> bool {
    exists|i: int| 0 <= i < ss.len() && (#[trigger] ss[i]).code@ == code
}

/// The position of the session with `code` (meaningful where `has_session`).
pub open spec fn session_index<A, B>(ss: Seq<Session<A, B>>, code: Seq<char>) -> int {
    choose|i: int| 0 <= i < ss.len() && (#[trigger] ss[i]).code@ == code
}

pub open spec fn codes_unique<A, B>(ss: Seq<Session<A, B>>) -> bool {
    forall|i: int, j: int|
        0 <= i < ss.len() && 0 <= j < ss.len() && i != j ==> (#[trigger] ss[i]).code@ != (
        #[trigger] ss[j]).code@
}

pub open spec fn has_browser<B>(bs: Seq<BrowserSlot<B>>, id: Seq<char>) -> bool {
    exists|i: int| 0 <= i < bs.len() && (#[trigger] bs[i]).browser_id@ == id
}

pub open spec fn browser_ids_unique<B>(bs: Seq<BrowserSlot<B>>) -> bool {
    forall|i: int, j: int|
        0 <= i < bs.len() && 0 <= j < bs.len() && i != j ==> (#[trigger] bs[i]).browser_id@ != (
        #[trigger] bs[j]).browser_id@
}

/// The position of the browser `id` in `bs` (meaningful where `has_browser`).
pub open spec fn browser_index<B>(bs: Seq<BrowserSlot<B>>, id: Seq<char>) -> int {
    choose|i: int| 0 <= i < bs.len() && (#[trigger] bs[i]).browser_id@ == id
}

/// `new` is `old` with the browser list of the session at `idx` replaced by `bs`.
pub open spec fn browsers_replaced<A, B>(
    old: Seq<Session<A, B>>,
    new: Seq<Session<A, B>>,
    idx: int,
    bs: Seq<BrowserSlot<B>>,
) -> bool {
    &&& new.len() == old.len()
    &&& 0 <= idx < old.len()
    &&& forall|j: int| 0 <= j < old.len() && j != idx ==> new[j] == old[j]
    &&& new[idx].code == old[idx].code
    &&& new[idx].client_id == old[idx].client_id
    &&& new[idx].agent == old[idx].agent
    &&& new[idx].browsers@ == bs
}

/// `new` is `old` with one browser, `id` on `sink`, appended to the session at `idx`.
pub open spec fn attached_one<A, B>(
    old: Seq<Session<A, B>>,
    new: Seq<Session<A, B>>,
    idx: int,
    id: Seq<char>,
    sink: B,
) -> bool {
    &&& 0 <= idx < old.len()
    &&& browsers_replaced(old, new, idx, new[idx].browsers@)
    &&& new[idx].browsers@.len() == old[idx].browsers@.len() + 1
    &&& new[idx].browsers@.drop_last() == old[idx].browsers@
    &&& new[idx].browsers@.last().browser_id@ == id
    &&& new[idx].browsers@.last().sink == sink
}

/// `bs` without the browsers whose ids are among `ids`.
pub open spec fn without_ids<B>(bs: Seq<BrowserSlot<B>>, ids: Seq<Seq<char>>) -> Seq<BrowserSlot<B>> {
    bs.filter(|s: BrowserSlot<B>| !ids.contains(s.browser_id@))
}

/// No active session holds a well-formed code, so no drawn code can collide.
pub open spec fn no_code_active<A, B>(ss: Seq<Session<A, B>>) -> bool {
    forall|i: int| 0 <= i < ss.len() ==> !is_code((#[trigger] ss[i]).code@)
}

/// No attached browser holds an id of the drawn length, so no drawn id can collide.
pub open spec fn no_id_taken<B>(bs: Seq<BrowserSlot<B>>) -> bool {
    forall|k: int| 0 <= k < bs.len() ==> (#[trigger] bs[k]).browser_id@.len() != crate::code::BROWSER_ID_LEN
}

/// The codes of the active sessions.
pub open spec fn active_codes<A, B>(ss: Seq<Session<A, B>>) -> Seq<Seq<char>> {
    ss.map_values(|s: Session<A, B>| s.code@)
}

/// The notice every browser of a session gets when its agent goes away.
pub open spec fn is_disconnect_notice(m: BrowserMessage) -> bool {
    m matches BrowserMessage::Control(ControlMessage::Error { message }) && message@
        == "Session disconnected"@
}

impl<A, B> View for AppState<A, B> {
    type V = Seq<Session<A, B>>;

    closed spec fn view(&self) -> Seq<Session<A, B>> {
        self.sessions@
    }
}

impl<A, B> AppState<A, B> {
    /// Codes are unique among the sessions, and browser ids within each session.
    pub open spec fn wf(&self) -> bool {
        &&& codes_unique(self@)
        &&& forall|i: int| 0 <= i < self@.len() ==> browser_ids_unique((#[trigger] self@[i]).browsers@)
    }

    pub fn new() -> (r: Self)
        ensures
            r.wf(),
            r@.len() == 0,
    {
        AppState { sessions: Vec::new() }
    }

    proof fn lemma_index_unique(&self, code: Seq<char>, i: int)
        requires
            self.wf(),
            0 <= i < self@.len(),
            self@[i].code@ == code,
        ensures
            has_session(self@, code),
            session_index(self@, code) == i,
    {
        let j = session_index(self@, code);
        assert(0 <= j < self@.len() && self@[j].code@ == code);
    }

    fn find(&self, code: &String) -> (r: Option<usize>)
        requires
            self.wf(),
        ensures
            r is None <==> !has_session(self@, code@),
            r matches Some(i) ==> i < self@.len() && i == session_index(self@, code@),
    {
        let mut i: usize = 0;
        while i < self.sessions.len()
            invariant
                self.wf(),
                i <= self.sessions@.len(),
                forall|k: int| 0 <= k < i ==> (#[trigger] self.sessions@[k]).code@ != code@,
            decreases self.sessions.len() - i,
        {
            if self.sessions[i].code == *code {
                proof {
                    self.lemma_index_unique(code@, i as int);
                }
                return Some(i);
            }
            i += 1;
        }
        None
    }

    fn find_browser(bs: &Vec<BrowserSlot<B>>, id: &String) -> (r: Option<usize>)
        requires
            browser_ids_unique(bs@),
        ensures
            r is None <==> !has_browser(bs@, id@),
            r matches Some(k) ==> k < bs@.len() && k == browser_index(bs@, id@),
    {
        let mut k: usize = 0;
        while k < bs.len()
            invariant
                browser_ids_unique(bs@),
                k <= bs@.len(),
                forall|m: int| 0 <= m < k ==> (#[trigger] bs@[m]).browser_id@ != id@,
            decreases bs.len() - k,
        {
            if bs[k].browser_id == *id {
                proof {
                    let j = browser_index(bs@, id@);
                    assert(0 <= j < bs@.len() && bs@[j].browser_id@ == id@);
                    assert(j == k);
                }
                return Some(k);
            }
            k += 1;
        }
        None
    }

    /// Replaces the browser list of the session at `i`, keeping everything else.
    fn set_browsers(&mut self, i: usize, bs: Vec<BrowserSlot<B>>) -> (old_bs: Vec<BrowserSlot<B>>)
        requires
            old(self).wf(),
            i < old(self)@.len(),
            browser_ids_unique(bs@),
        ensures
            final(self).wf(),
            browsers_replaced(old(self)@, final(self)@, i as int, bs@),
            old_bs@ == old(self)@[i as int].browsers@,
    {
        let ghost old_ss = self@;
        let Session { code, client_id, agent, browsers } = self.sessions.remove(i);
        self.sessions.insert(i, Session { code, client_id, agent, browsers: bs });
        let old_bs = browsers;
        proof {
            assert forall|j: int| 0 <= j < old_ss.len() && j != i implies self@[j] == old_ss[j] by {
                if j < i {
                    assert(self@[j] == old_ss.remove(i as int)[j]);
                } else {
                    assert(self@[j] == old_ss.remove(i as int)[j - 1]);
                }
            }
            assert forall|a: int, b: int|
                0 <= a < self@.len() && 0 <= b < self@.len() && a != b implies (
                #[trigger] self@[a]).code@ != (#[trigger] self@[b]).code@ by {
                assert(self@[a].code == old_ss[a].code);
                assert(self@[b].code == old_ss[b].code);
            }
            assert forall|a: int| 0 <= a < self@.len() implies browser_ids_unique(
                (#[trigger] self@[a]).browsers@,
            ) by {
                if a != i {
                    assert(self@[a] == old_ss[a]);
                }
            }
        }
        old_bs
    }

    /// Whether a session with this code is active.
    pub fn validate_session_code(&self, code: &str) -> (r: bool)
        requires
            self.wf(),
        ensures
            r == has_session(self@, code@),
    {
        let c = code.to_owned();
        self.find(&c).is_some()
    }

    /// Number of active sessions.
    pub fn session_count(&self) -> (r: usize)
        ensures
            r == self@.len(),
    {
        self.sessions.len()
    }

    /// Adds a session under `code`, unless that code is in use: then the agent
    /// sink is handed back and nothing changes.
    pub fn insert_session(&mut self, code: String, client_id: String, agent: A) -> (r: Result<(), A>)
        requires
            old(self).wf(),
        ensures
            final(self).wf(),
            has_session(old(self)@, code@) ==> r == Err::<(), A>(agent) && final(self)@ == old(self)@,
            !has_session(old(self)@, code@) ==> r is Ok && final(self)@.len() == old(self)@.len()
                + 1 && final(self)@.subrange(0, old(self)@.len() as int) == old(self)@ && final(self)@.last().code@ == code@ && final(self)@.last().client_id@ == client_id@ && final(self)@.last().agent == agent && final(self)@.last().browsers@.len() == 0,
    {
        if self.find(&code).is_some() {
            return Err(agent);
        }
        let ghost old_ss = self@;
        self.sessions.push(Session { code, client_id, agent, browsers: Vec::new() });
        proof {
            assert(self@.subrange(0, old_ss.len() as int) =~= old_ss);
            assert forall|i: int, j: int|
                0 <= i < self@.len() && 0 <= j < self@.len() && i != j implies (
                #[trigger] self@[i]).code@ != (#[trigger] self@[j]).code@ by {
                if i < old_ss.len() && j < old_ss.len() {
                    assert(old_ss[i] == self@[i] && old_ss[j] == self@[j]);
                } else if i < old_ss.len() {
                    assert(old_ss[i] == self@[i]);
                } else {
                    assert(old_ss[j] == self@[j]);
                }
            }
            assert forall|i: int| 0 <= i < self@.len() implies browser_ids_unique(
                (#[trigger] self@[i]).browsers@,
            ) by {
                if i < old_ss.len() {
                    assert(old_ss[i] == self@[i]);
                }
            }
        }
        Ok(())
    }

    /// Registers an agent under a freshly minted code. Up to eight codes are
    /// drawn; one that is already active is drawn again. Where no active
    /// session holds a well-formed code (a fresh relay, say) the first draw
    /// cannot collide, so registration succeeds.
    pub fn register_mac_client(&mut self, client_id: String, agent: A) -> (r: Result<
        String,
        RegisterError,
    >)
        requires
            old(self).wf(),
        ensures
            final(self).wf(),
            r matches Ok(c) ==> is_code(c@) && !has_session(old(self)@, c@) && final(self)@.len()
                == old(self)@.len() + 1 && final(self)@.subrange(0, old(self)@.len() as int) == old(self)@ && final(self)@.last().code@ == c@ && final(self)@.last().client_id@ == client_id@
                && final(self)@.last().agent == agent && final(self)@.last().browsers@.len() == 0,
            r is Err ==> final(self)@ == old(self)@,
            no_code_active(old(self)@) ==> r is Ok,
    {
        let mut attempt: usize = 0;
        while attempt < MAX_MINT_ATTEMPTS
            invariant
                self.wf(),
                self@ == old(self)@,
                no_code_active(old(self)@) ==> attempt == 0,
            decreases MAX_MINT_ATTEMPTS - attempt,
        {
            let code = generate_session_code();
            proof {
                if no_code_active(old(self)@) && has_session(self@, code@) {
                    let i = choose|i: int| 0 <= i < self@.len() && (#[trigger] self@[i]).code@ == code@;
                    assert(!is_code(self@[i].code@));
                }
            }
            if !self.validate_session_code(code.as_str()) {
                let c = code.clone();
                let inserted = self.insert_session(code, client_id, agent);
                assert(inserted is Ok);
                return Ok(c);
            }
            attempt += 1;
        }
        Err(RegisterError::CodeSpaceExhausted)
    }

    /// The agent sink of the session with this code.
    pub fn get_mac_sender(&self, code: &str) -> (r: Option<&A>)
        requires
            self.wf(),
        ensures
            r is None <==> !has_session(self@, code@),
            r matches Some(a) ==> *a == self@[session_index(self@, code@)].agent,
    {
        let c = code.to_owned();
        match self.find(&c) {
            Some(i) => Some(&self.sessions[i].agent),
            None => None,
        }
    }

    /// The browsers attached to the session with this code, in the order they
    /// attached; none where there is no such session.
    pub fn browsers(&self, code: &str) -> (r: Vec<&BrowserSlot<B>>)
        requires
            self.wf(),
        ensures
            !has_session(self@, code@) ==> r@.len() == 0,
            has_session(self@, code@) ==> r@.len() == self@[session_index(
                self@,
                code@,
            )].browsers@.len() && forall|k: int|
                0 <= k < r@.len() ==> *r@[k] == (#[trigger] self@[session_index(
                    self@,
                    code@,
                )].browsers@[k]),
    {
        let c = code.to_owned();
        let mut r: Vec<&BrowserSlot<B>> = Vec::new();
        match self.find(&c) {
            None => r,
            Some(i) => {
                let bs = &self.sessions[i].browsers;
                let mut k: usize = 0;
                while k < bs.len()
                    invariant
                        k <= bs@.len(),
                        r@.len() == k,
                        forall|m: int| 0 <= m < k ==> *r@[m] == (#[trigger] bs@[m]),
                    decreases bs.len() - k,
                {
                    r.push(&bs[k]);
                    k += 1;
                }
                r
            },
        }
    }

    /// Attaches a browser to the session with this code. The sink is handed
    /// back, and nothing changes, where there is no such session or the id is
    /// already attached to it.
    pub fn add_browser(&mut self, code: &str, browser_id: String, sink: B) -> (r: Result<(), B>)
        requires
            old(self).wf(),
        ensures
            final(self).wf(),
            r is Ok <==> has_session(old(self)@, code@) && !has_browser(
                old(self)@[session_index(old(self)@, code@)].browsers@,
                browser_id@,
            ),
            r is Ok ==> browsers_replaced(
                old(self)@,
                final(self)@,
                session_index(old(self)@, code@),
                old(self)@[session_index(old(self)@, code@)].browsers@.push(
                    (BrowserSlot { browser_id, sink }),
                ),
            ),
            r is Err ==> r == Err::<(), B>(sink) && final(self)@ == old(self)@,
    {
        let c = code.to_owned();
        match self.find(&c) {
            None => Err(sink),
            Some(i) => {
                if Self::find_browser(&self.sessions[i].browsers, &browser_id).is_some() {
                    return Err(sink);
                }
                let ghost old_bs = self@[i as int].browsers@;
                let mut bs: Vec<BrowserSlot<B>> = Vec::new();
                bs = self.set_browsers(i, bs);
                bs.push(BrowserSlot { browser_id, sink });
                proof {
                    assert forall|a: int, b: int|
                        0 <= a < bs@.len() && 0 <= b < bs@.len() && a != b implies (
                        #[trigger] bs@[a]).browser_id@ != (#[trigger] bs@[b]).browser_id@ by {
                        if a < old_bs.len() && b < old_bs.len() {
                            assert(bs@[a] == old_bs[a] && bs@[b] == old_bs[b]);
                        } else if a < old_bs.len() {
                            assert(bs@[a] == old_bs[a]);
                        } else {
                            assert(bs@[b] == old_bs[b]);
                        }
                    }
                }
                let _ = self.set_browsers(i, bs);
                Ok(())
            },
        }
    }

    /// Detaches the browser `browser_id` from the session with this code, where
    /// both exist; otherwise nothing changes.
    pub fn remove_browser(&mut self, code: &str, browser_id: &str)
        requires
            old(self).wf(),
        ensures
            final(self).wf(),
            has_session(old(self)@, code@) && has_browser(
                old(self)@[session_index(old(self)@, code@)].browsers@,
                browser_id@,
            ) ==> browsers_replaced(
                old(self)@,
                final(self)@,
                session_index(old(self)@, code@),
                old(self)@[session_index(old(self)@, code@)].browsers@.remove(
                    browser_index(old(self)@[session_index(old(self)@, code@)].browsers@, browser_id@),
                ),
            ),
            !(has_session(old(self)@, code@) && has_browser(
                old(self)@[session_index(old(self)@, code@)].browsers@,
                browser_id@,
            )) ==> final(self)@ == old(self)@,
    {
        let c = code.to_owned();
        let id = browser_id.to_owned();
        if let Some(i) = self.find(&c) {
            if let Some(k) = Self::find_browser(&self.sessions[i].browsers, &id) {
                let ghost old_bs = self@[i as int].browsers@;
                let mut bs: Vec<BrowserSlot<B>> = Vec::new();
                bs = self.set_browsers(i, bs);
                let _gone = bs.remove(k);
                proof {
                    assert forall|a: int, b: int|
                        0 <= a < bs@.len() && 0 <= b < bs@.len() && a != b implies (
                        #[trigger] bs@[a]).browser_id@ != (#[trigger] bs@[b]).browser_id@ by {
                        let oa = if a < k { a } else { a + 1 };
                        let ob = if b < k { b } else { b + 1 };
                        assert(bs@[a] == old_bs[oa] && bs@[b] == old_bs[ob]);
                    }
                }
                let _ = self.set_browsers(i, bs);
            }
        }
    }

    /// Drops the browsers `slow` from the session with this code: the ones a
    /// fan-out could not queue for. The others stay, in their order.
    pub fn drop_browsers(&mut self, code: &str, slow: &Vec<String>)
        requires
            old(self).wf(),
        ensures
            final(self).wf(),
            has_session(old(self)@, code@) ==> browsers_replaced(
                old(self)@,
                final(self)@,
                session_index(old(self)@, code@),
                without_ids(old(self)@[session_index(old(self)@, code@)].browsers@, names(slow@)),
            ),
            !has_session(old(self)@, code@) ==> final(self)@ == old(self)@,
    {
        let c = code.to_owned();
        if let Some(i) = self.find(&c) {
            let ghost all = self@[i as int].browsers@;
            let ghost ids = names(slow@);
            let mut bs: Vec<BrowserSlot<B>> = Vec::new();
            bs = self.set_browsers(i, bs);
            let mut kept: Vec<BrowserSlot<B>> = Vec::new();
            let ghost mut taken: int = 0;
            while bs.len() > 0
                invariant
                    0 <= taken <= all.len(),
                    bs@ == all.subrange(taken, all.len() as int),
                    browser_ids_unique(all),
                    ids == names(slow@),
                    kept@ == without_ids(all.subrange(0, taken), ids),
                    forall|a: int|
                        0 <= a < kept@.len() ==> exists|j: int|
                            0 <= j < taken && #[trigger] kept@[a] == all[j],
                    browser_ids_unique(kept@),
                decreases bs.len(),
            {
                let slot = bs.remove(0);
                proof {
                    assert(slot == all[taken]);
                }
                let ghost before = kept@;
                let is_slow = contains_name(slow, &slot.browser_id);
                if !is_slow {
                    kept.push(slot);
                    proof {
                        assert forall|a: int, b: int|
                            0 <= a < kept@.len() && 0 <= b < kept@.len() && a != b implies (
                            #[trigger] kept@[a]).browser_id@ != (#[trigger] kept@[b]).browser_id@ by {
                            if a < before.len() && b < before.len() {
                                assert(kept@[a] == before[a] && kept@[b] == before[b]);
                            } else if a < before.len() {
                                assert(kept@[a] == before[a]);
                                let j = choose|j: int| 0 <= j < taken && before[a] == all[j];
                                assert(all[j].browser_id@ != all[taken].browser_id@);
                            } else {
                                assert(kept@[b] == before[b]);
                                let j = choose|j: int| 0 <= j < taken && before[b] == all[j];
                                assert(all[j].browser_id@ != all[taken].browser_id@);
                            }
                        }
                        assert forall|a: int| 0 <= a < kept@.len() implies exists|j: int|
                            0 <= j < taken + 1 && #[trigger] kept@[a] == all[j] by {
                            if a < before.len() {
                                assert(kept@[a] == before[a]);
                                let j = choose|j: int| 0 <= j < taken && before[a] == all[j];
                                assert(kept@[a] == all[j]);
                            } else {
                                assert(kept@[a] == all[taken]);
                            }
                        }
                    }
                }
                proof {
                    reveal(Seq::filter);
                    let post = all.subrange(0, taken + 1);
                    assert(post.drop_last() =~= all.subrange(0, taken));
                    assert(post.last() == all[taken]);
                    assert(kept@ =~= without_ids(post, ids));
                    taken = taken + 1;
                    assert(bs@ =~= all.subrange(taken, all.len() as int));
                }
            }
            proof {
                assert(all.subrange(0, taken) =~= all);
            }
            let _ = self.set_browsers(i, kept);
        }
    }

    /// Ends the session with this code. Every browser still attached gets one
    /// disconnect notice, in the order the browsers attached; the agent sink is
    /// dropped with the session. Nothing happens where there is no such session.
    pub fn remove_session(&mut self, code: &str) -> (r: Vec<Delivery<B>>)
        requires
            old(self).wf(),
        ensures
            final(self).wf(),
            !has_session(old(self)@, code@) ==> final(self)@ == old(self)@ && r@.len() == 0,
            has_session(old(self)@, code@) ==> final(self)@ == old(self)@.remove(
                session_index(old(self)@, code@),
            ) && r@.len() == old(self)@[session_index(old(self)@, code@)].browsers@.len() && forall|
                k: int,
            |
                0 <= k < r@.len() ==> (#[trigger] r@[k]).sink == old(self)@[session_index(
                    old(self)@,
                    code@,
                )].browsers@[k].sink && is_disconnect_notice(r@[k].message),
            !has_session(final(self)@, code@),
    {
        let c = code.to_owned();
        let mut out: Vec<Delivery<B>> = Vec::new();
        match self.find(&c) {
            None => out,
            Some(i) => {
                let ghost old_ss = self@;
                let s = self.sessions.remove(i);
                proof {
                    assert forall|a: int, b: int|
                        0 <= a < self@.len() && 0 <= b < self@.len() && a != b implies (
                        #[trigger] self@[a]).code@ != (#[trigger] self@[b]).code@ by {
                        let oa = if a < i { a } else { a + 1 };
                        let ob = if b < i { b } else { b + 1 };
                        assert(self@[a] == old_ss[oa] && self@[b] == old_ss[ob]);
                    }
                    assert forall|a: int| 0 <= a < self@.len() implies browser_ids_unique(
                        (#[trigger] self@[a]).browsers@,
                    ) by {
                        let oa = if a < i { a } else { a + 1 };
                        assert(self@[a] == old_ss[oa]);
                    }
                    assert forall|a: int| 0 <= a < self@.len() implies (#[trigger] self@[a]).code@
                        != c@ by {
                        let oa = if a < i { a } else { a + 1 };
                        assert(self@[a] == old_ss[oa]);
                    }
                }
                let ghost all = s.browsers@;
                let mut bs = s.browsers;
                let ghost mut taken: int = 0;
                while bs.len() > 0
                    invariant
                        0 <= taken <= all.len(),
                        bs@ == all.subrange(taken, all.len() as int),
                        out@.len() == taken,
                        forall|k: int|
                            0 <= k < taken ==> (#[trigger] out@[k]).sink == all[k].sink
                                && is_disconnect_notice(out@[k].message),
                    decreases bs.len(),
                {
                    let slot = bs.remove(0);
                    let notice = ControlMessage::Error { message: "Session disconnected".to_owned() };
                    proof {
                        reveal_strlit("Session disconnected");
                    }
                    out.push(Delivery { sink: slot.sink, message: BrowserMessage::Control(notice) });
                    proof {
                        assert(slot == all[taken]);
                        taken = taken + 1;
                        assert(bs@ =~= all.subrange(taken, all.len() as int));
                    }
                }
                out
            },
        }
    }

    /// Attaches a browser that presented `submitted`. The code is upper-cased
    /// first; a code no session has is refused with `auth_failed`. The browser
    /// id is drawn at random, up to eight times where it is already taken.
    pub fn auth_browser(&mut self, submitted: &str, sink: B) -> (r: AuthOutcome<B>)
        requires
            old(self).wf(),
        ensures
            final(self).wf(),
            !has_session(old(self)@, normalized(submitted@)) ==> final(self)@ == old(self)@ && (
            r matches AuthOutcome::Refused { sink: s, reply: ControlMessage::AuthFailed { reason } }
                && s == sink && reason@ == "Invalid session code"@),
            r matches AuthOutcome::Accepted { code, browser_id } ==> code@ == normalized(
                submitted@,
            ) && has_session(old(self)@, code@) && browser_id@.len() == crate::code::BROWSER_ID_LEN
                && attached_one(old(self)@, final(self)@, session_index(old(self)@, code@), browser_id@, sink),
            r is Refused ==> final(self)@ == old(self)@,
            has_session(old(self)@, normalized(submitted@)) && no_id_taken(
                old(self)@[session_index(old(self)@, normalized(submitted@))].browsers@,
            ) ==> r is Accepted,
    {
        let code = normalize_code(submitted);
        if !self.validate_session_code(code.as_str()) {
            proof {
                reveal_strlit("Invalid session code");
            }
            return AuthOutcome::Refused {
                sink,
                reply: ControlMessage::AuthFailed { reason: "Invalid session code".to_owned() },
            };
        }
        let mut held = sink;
        let mut attempt: usize = 0;
        while attempt < MAX_MINT_ATTEMPTS
            invariant
                self.wf(),
                self@ == old(self)@,
                code@ == normalized(submitted@),
                has_session(self@, code@),
                held == sink,
                no_id_taken(self@[session_index(self@, code@)].browsers@) ==> attempt == 0,
            decreases MAX_MINT_ATTEMPTS - attempt,
        {
            let id = generate_browser_id();
            let id2 = id.clone();
            proof {
                let bs = self@[session_index(self@, code@)].browsers@;
                if no_id_taken(bs) && has_browser(bs, id@) {
                    let k = choose|k: int| 0 <= k < bs.len() && (#[trigger] bs[k]).browser_id@ == id@;
                    assert(bs[k].browser_id@.len() != crate::code::BROWSER_ID_LEN);
                }
            }
            match self.add_browser(code.as_str(), id, held) {
                Ok(()) => {
                    proof {
                        let idx = session_index(old(self)@, code@);
                        assert(self@[idx].browsers@.drop_last() =~= old(self)@[idx].browsers@);
                    }
                    return AuthOutcome::Accepted { code, browser_id: id2 };
                },
                Err(s) => {
                    held = s;
                },
            }
            attempt += 1;
        }
        AuthOutcome::Refused {
            sink: held,
            reply: ControlMessage::AuthFailed { reason: "No browser id left".to_owned() },
        }
    }
}

/// Codes are told apart: the active codes are pairwise distinct, so as many
/// distinct codes are active as there are sessions. Registering `k` agents
/// with no removal in between therefore yields `k` distinct codes.
pub proof fn lemma_active_codes_distinct<A, B>(b: AppState<A, B>)
    requires
        b.wf(),
    ensures
        active_codes(b@).no_duplicates(),
        active_codes(b@).to_set().len() == b@.len(),
{
    let cs = active_codes(b@);
    assert forall|i: int, j: int| 0 <= i < cs.len() && 0 <= j < cs.len() && i != j implies cs[i]
        != cs[j] by {
        assert(b@[i].code@ != b@[j].code@);
    }
    cs.unique_seq_to_set();
}

/// A code is accepted in any letter case: presenting the lower-case form of
/// an active code finds the same session as presenting the code itself.
pub proof fn lemma_auth_case_insensitive<A, B>(b: AppState<A, B>, i: int)
    requires
        b.wf(),
        0 <= i < b@.len(),
        is_code(b@[i].code@),
    ensures
        has_session(b@, normalized(lower_seq(b@[i].code@))),
        has_session(b@, normalized(b@[i].code@)),
        session_index(b@, normalized(lower_seq(b@[i].code@))) == i,
        session_index(b@, normalized(b@[i].code@)) == i,
{
    lemma_code_case_insensitive(b@[i].code@);
    b.lemma_index_unique(b@[i].code@, i);
}

} // verus!

verus! {

/// Output fanned out before a browser attached never reaches it; output
/// fanned out afterwards reaches every earlier browser, in the same order,
/// and then the new one. `old` and `new` are the sessions before and after an
/// `add_browser` that succeeded for `slot` on the session at `idx`.
pub proof fn lemma_attach_between_fan_outs<A, B>(
    old: Seq<Session<A, B>>,
    new: Seq<Session<A, B>>,
    idx: int,
    slot: BrowserSlot<B>,
)
    requires
        0 <= idx < old.len(),
        !has_browser(old[idx].browsers@, slot.browser_id@),
        browsers_replaced(old, new, idx, old[idx].browsers@.push(slot)),
    ensures
        forall|k: int|
            0 <= k < old[idx].browsers@.len() ==> (#[trigger] old[idx].browsers@[k]).browser_id@
                != slot.browser_id@,
        new[idx].browsers@.len() == old[idx].browsers@.len() + 1,
        forall|k: int|
            0 <= k < old[idx].browsers@.len() ==> #[trigger] new[idx].browsers@[k]
                == old[idx].browsers@[k],
        new[idx].browsers@.last() == slot,
{
    assert forall|k: int| 0 <= k < old[idx].browsers@.len() implies (
    #[trigger] old[idx].browsers@[k]).browser_id@ != slot.browser_id@ by {
        if old[idx].browsers@[k].browser_id@ == slot.browser_id@ {
            assert(has_browser(old[idx].browsers@, slot.browser_id@));
        }
    }
}

} // verus!
