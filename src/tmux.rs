//! The multiplexer side of the agent: its session records, the events and
//! commands of the session manager, which sessions to attach, and the table of
//! attached sessions keyed by the agent's own session ids.
use vstd::prelude::*;

verus! {

/// One multiplexer session, as `list-sessions` reports it.
#[derive(Debug, Clone)]
pub struct TmuxSessionInfo {
    pub name: String,
    pub windows: u32,
    pub created: String,
    pub attached: bool,
}

/// Events of the session manager.
#[derive(Debug, Clone)]
pub enum TmuxEvent {
    /// The multiplexer's sessions.
    SessionList(Vec<TmuxSessionInfo>),
    /// A session was attached under a fresh id; its output follows.
    Attached { session_id: String, session_name: String },
    /// An attached session went away.
    Detached { session_id: String },
    /// Output of an attached session.
    Output { session_id: String, data: Vec<u8> },
    /// Something failed.
    Error(String),
}

/// Commands for the session manager.
#[derive(Debug)]
pub enum TmuxCommand {
    /// List the multiplexer's sessions.
    ListSessions,
    /// Create a session (named, or with a generated name) and attach it.
    NewSession { name: Option<String> },
    /// Attach an existing session.
    Attach { session_name: String },
    /// Attach every session not yet attached.
    AttachAll,
    /// Keystrokes for an attached session.
    Write { session_id: String, data: Vec<u8> },
    /// Resize an attached session.
    Resize { session_id: String, cols: u16, rows: u16 },
    /// Make an attached session redraw.
    Refresh { session_id: String },
    /// Kill a session by its multiplexer name.
    KillSession { session_name: String },
    /// Kill a session by the agent's id for it.
    KillSessionById { session_id: String },
    /// Stop streaming a session.
    Detach { session_id: String },
    /// Stop the manager.
    Shutdown,
}

/// The texts of a list of names.
pub open spec fn names(v: Seq<String>) -> Seq<Seq<char>> {
    v.map_values(|s: String| s@)
}

/// Whether `name` is among `v`.
pub fn contains_name(v: &Vec<String>, name: &String) -> (r: bool)
    ensures
        r == names(v@).contains(name@),
{
    let mut i: usize = 0;
    while i < v.len()
        invariant
            i <= v@.len(),
            forall|k: int| 0 <= k < i ==> (#[trigger] v@[k])@ != name@,
        decreases v.len() - i,
    {
        if v[i] == *name {
            assert(names(v@)[i as int] == name@);
            return true;
        }
        i += 1;
    }
    proof {
        if names(v@).contains(name@) {
            let k = choose|k: int| 0 <= k < names(v@).len() && names(v@)[k] == name@;
            assert(v@[k]@ == name@);
        }
    }
    false
}

/// The sessions to attach: those of `current`, in order, that are neither
/// among `known` nor among `attached`.
pub open spec fn to_attach(
    current: Seq<Seq<char>>,
    known: Seq<Seq<char>>,
    attached: Seq<Seq<char>>,
) -> Seq<Seq<char>> {
    current.filter(|n: Seq<char>| !known.contains(n) && !attached.contains(n))
}

/// One round of the session watcher. It returns the names to remember, which
/// are exactly the current ones (names that vanished are forgotten), and the
/// names that appeared since the last round and are not attached yet.
pub fn watch_step(known: &Vec<String>, current: &Vec<String>, attached: &Vec<String>) -> (r: (
    Vec<String>,
    Vec<String>,
))
    ensures
        names(r.0@) == names(current@),
        names(r.1@) == to_attach(names(current@), names(known@), names(attached@)),
{
    let ghost cur = names(current@);
    let ghost kn = names(known@);
    let ghost at = names(attached@);
    let mut remembered: Vec<String> = Vec::new();
    let mut fresh: Vec<String> = Vec::new();
    let mut i: usize = 0;
    while i < current.len()
        invariant
            i <= current@.len(),
            cur == names(current@),
            kn == names(known@),
            at == names(attached@),
            names(remembered@) == cur.subrange(0, i as int),
            names(fresh@) == to_attach(cur.subrange(0, i as int), kn, at),
        decreases current.len() - i,
    {
        let name = &current[i];
        remembered.push(name.clone());
        let is_new = !contains_name(known, name) && !contains_name(attached, name);
        if is_new {
            fresh.push(name.clone());
        }
        proof {
            let pre = cur.subrange(0, i as int);
            let post = cur.subrange(0, i + 1);
            assert(post.drop_last() =~= pre);
            assert(post.last() == name@);
            assert(names(remembered@) =~= post);
            reveal(Seq::filter);
            assert(names(fresh@) =~= to_attach(post, kn, at));
        }
        i += 1;
    }
    proof {
        assert(cur.subrange(0, current@.len() as int) =~= cur);
    }
    (remembered, fresh)
}

/// The sessions to attach when attaching all: those of `existing`, in order,
/// that are not attached yet.
pub fn sessions_to_attach(existing: &Vec<String>, attached: &Vec<String>) -> (r: Vec<String>)
    ensures
        names(r@) == to_attach(names(existing@), Seq::empty(), names(attached@)),
{
    let none: Vec<String> = Vec::new();
    proof {
        assert(names(none@) =~= Seq::<Seq<char>>::empty());
    }
    let (_, fresh) = watch_step(&none, existing, attached);
    fresh
}

/// No id used so far has the length of a drawn UUID, so no draw can collide
/// (a fresh table, say).
pub open spec fn no_uuid_used(used: Seq<Seq<char>>) -> bool {
    forall|k: int| 0 <= k < used.len() ==> (#[trigger] used[k]).len() != crate::code::UUID_TEXT_LEN
}

/// An attached session: the agent's id for it, its multiplexer name, and the
/// caller's handle on its terminal.
pub struct AttachedSession<H> {
    pub session_id: String,
    pub session_name: String,
    pub handle: H,
}

/// The attached sessions, keyed by the agent's session id. An id is never
/// used twice, even after its session is gone.
pub struct AttachedSessions<H> {
    entries: Vec<AttachedSession<H>>,
    used: Vec<String>,
}

pub open spec fn entry_ids<H>(es: Seq<AttachedSession<H>>) -> Seq<Seq<char>> {
    es.map_values(|e: AttachedSession<H>| e.session_id@)
}

impl<H> AttachedSessions<H> {
    /// The attached sessions, in the order they were attached.
    pub closed spec fn entries(&self) -> Seq<AttachedSession<H>> {
        self.entries@
    }

    /// Every id ever attached.
    pub closed spec fn used_ids(&self) -> Seq<Seq<char>> {
        names(self.used@)
    }

    pub open spec fn wf(&self) -> bool {
        &&& forall|i: int| 0 <= i < self.entries().len() ==> self.used_ids().contains(
            (#[trigger] self.entries()[i]).session_id@,
        )
        &&& entry_ids(self.entries()).no_duplicates()
    }

    pub open spec fn has_id(&self, id: Seq<char>) -> bool {
        entry_ids(self.entries()).contains(id)
    }

    pub fn new() -> (r: Self)
        ensures
            r.wf(),
            r.entries().len() == 0,
            r.used_ids().len() == 0,
    {
        let r = AttachedSessions { entries: Vec::new(), used: Vec::new() };
        proof {
            assert(names(r.used@) =~= Seq::<Seq<char>>::empty());
        }
        r
    }

    fn find(&self, id: &String) -> (r: Option<usize>)
        requires
            self.wf(),
        ensures
            r is None <==> !self.has_id(id@),
            r matches Some(i) ==> i < self.entries().len() && self.entries()[i as int].session_id@
                == id@,
    {
        let mut i: usize = 0;
        while i < self.entries.len()
            invariant
                i <= self.entries@.len(),
                forall|k: int| 0 <= k < i ==> (#[trigger] self.entries@[k]).session_id@ != id@,
            decreases self.entries.len() - i,
        {
            if self.entries[i].session_id == *id {
                assert(entry_ids(self.entries())[i as int] == id@);
                return Some(i);
            }
            i += 1;
        }
        proof {
            if self.has_id(id@) {
                let k = choose|k: int|
                    0 <= k < entry_ids(self.entries()).len() && entry_ids(self.entries())[k]
                        == id@;
                assert(self.entries@[k].session_id@ == id@);
            }
        }
        None
    }

    /// Records an attached session under an id never used before; an id that
    /// was used already is refused and the handle handed back.
    pub fn attach(&mut self, session_id: String, session_name: String, handle: H) -> (r: Result<
        (),
        H,
    >)
        requires
            old(self).wf(),
        ensures
            final(self).wf(),
            old(self).used_ids().contains(session_id@) ==> r == Err::<(), H>(handle) && final(self).entries() == old(self).entries() && final(self).used_ids() == old(self).used_ids(),
            !old(self).used_ids().contains(session_id@) ==> r is Ok && final(self).entries().len()
                == old(self).entries().len() + 1 && final(self).entries().drop_last() == old(self).entries() && final(self).entries().last().session_id@ == session_id@ && final(self).entries().last().session_name@ == session_name@ && final(self).entries().last().handle
                == handle && final(self).used_ids() == old(self).used_ids().push(session_id@),
    {
        if contains_name(&self.used, &session_id) {
            return Err(handle);
        }
        let ghost old_entries = self.entries@;
        let ghost old_used = names(self.used@);
        self.used.push(session_id.clone());
        self.entries.push(AttachedSession { session_id, session_name, handle });
        proof {
            assert(names(self.used@) =~= old_used.push(self.entries@.last().session_id@));
            assert(self.entries@.drop_last() =~= old_entries);
            assert forall|i: int| 0 <= i < self.entries().len() implies self.used_ids().contains(
                (#[trigger] self.entries()[i]).session_id@,
            ) by {
                if i < old_entries.len() {
                    assert(self.entries()[i] == old_entries[i]);
                    let k = choose|k: int| 0 <= k < old_used.len() && old_used[k] == old_entries[i].session_id@;
                    assert(self.used_ids()[k] == old_used[k]);
                } else {
                    assert(self.used_ids()[old_used.len() as int] == self.entries()[i].session_id@);
                }
            }
            let ids = entry_ids(self.entries());
            assert forall|a: int, b: int| 0 <= a < ids.len() && 0 <= b < ids.len() && a != b implies ids[a] != ids[b] by {
                if a < old_entries.len() && b < old_entries.len() {
                    assert(ids[a] == entry_ids(old_entries)[a] && ids[b] == entry_ids(old_entries)[b]);
                } else if a < old_entries.len() {
                    assert(ids[a] == old_entries[a].session_id@);
                    assert(old_used.contains(ids[a]));
                } else {
                    assert(ids[b] == old_entries[b].session_id@);
                    assert(old_used.contains(ids[b]));
                }
            }
        }
        Ok(())
    }

    /// Records an attached session under a freshly drawn UUID, drawn again
    /// (up to eight times) where it was used before; returns the id, or hands
    /// the handle back where every draw was used. Where no used id has the
    /// length of a UUID, the first draw succeeds.
    pub fn attach_fresh(&mut self, session_name: String, handle: H) -> (r: Result<String, H>)
        requires
            old(self).wf(),
        ensures
            final(self).wf(),
            r matches Ok(id) ==> !old(self).used_ids().contains(id@) && id@.len()
                == crate::code::UUID_TEXT_LEN && final(self).entries().len() == old(self).entries().len() + 1
                && final(self).entries().drop_last() == old(self).entries()
                && final(self).entries().last().session_id@ == id@
                && final(self).entries().last().session_name@ == session_name@
                && final(self).entries().last().handle == handle
                && final(self).used_ids() == old(self).used_ids().push(id@),
            r is Err ==> r == Err::<String, H>(handle) && final(self).entries() == old(self).entries()
                && final(self).used_ids() == old(self).used_ids(),
            no_uuid_used(old(self).used_ids()) ==> r is Ok,
    {
        let mut held = handle;
        let mut attempt: usize = 0;
        while attempt < crate::broker::MAX_MINT_ATTEMPTS
            invariant
                self.wf(),
                self.entries() == old(self).entries(),
                self.used_ids() == old(self).used_ids(),
                held == handle,
                no_uuid_used(old(self).used_ids()) ==> attempt == 0,
            decreases crate::broker::MAX_MINT_ATTEMPTS - attempt,
        {
            let id = crate::code::random_uuid();
            proof {
                let u = self.used_ids();
                if no_uuid_used(u) && u.contains(id@) {
                    let k = choose|k: int| 0 <= k < u.len() && u[k] == id@;
                    assert(u[k].len() != crate::code::UUID_TEXT_LEN);
                }
            }
            let id2 = id.clone();
            match self.attach(id, session_name.clone(), held) {
                Ok(()) => {
                    return Ok(id2);
                },
                Err(h) => {
                    held = h;
                },
            }
            attempt += 1;
        }
        Err(held)
    }

    /// Forgets the session with this id and hands back its handle. Only the
    /// first call for an id finds it, so a session is reported gone once.
    pub fn detach(&mut self, session_id: &str) -> (r: Option<H>)
        requires
            old(self).wf(),
        ensures
            final(self).wf(),
            final(self).used_ids() == old(self).used_ids(),
            r is Some <==> old(self).has_id(session_id@),
            !final(self).has_id(session_id@),
            !old(self).has_id(session_id@) ==> final(self).entries() == old(self).entries(),
            old(self).has_id(session_id@) ==> exists|i: int|
                0 <= i < old(self).entries().len() && (#[trigger] old(self).entries()[i]).session_id@
                    == session_id@ && final(self).entries() == old(self).entries().remove(i) && r
                    == Some(old(self).entries()[i].handle),
    {
        let id = session_id.to_owned();
        match self.find(&id) {
            None => None,
            Some(i) => {
                let ghost old_entries = self.entries@;
                let e = self.entries.remove(i);
                proof {
                    let ids = entry_ids(old_entries);
                    assert forall|a: int| 0 <= a < self.entries().len() implies self.used_ids().contains(
                        (#[trigger] self.entries()[a]).session_id@,
                    ) by {
                        let oa = if a < i { a } else { a + 1 };
                        assert(self.entries()[a] == old_entries[oa]);
                    }
                    let nids = entry_ids(self.entries());
                    assert forall|a: int, b: int| 0 <= a < nids.len() && 0 <= b < nids.len() && a != b implies nids[a] != nids[b] by {
                        let oa = if a < i { a } else { a + 1 };
                        let ob = if b < i { b } else { b + 1 };
                        assert(nids[a] == ids[oa] && nids[b] == ids[ob]);
                    }
                    if nids.contains(session_id@) {
                        let a = choose|a: int| 0 <= a < nids.len() && nids[a] == session_id@;
                        let oa = if a < i { a } else { a + 1 };
                        assert(nids[a] == ids[oa]);
                        assert(ids[i as int] == session_id@);
                    }
                }
                Some(e.handle)
            },
        }
    }

    /// The handle of the session with this id; `None` for an unknown id, whose
    /// input is then dropped.
    pub fn get(&self, session_id: &str) -> (r: Option<&H>)
        requires
            self.wf(),
        ensures
            r is None <==> !self.has_id(session_id@),
            r matches Some(h) ==> exists|i: int|
                0 <= i < self.entries().len() && (#[trigger] self.entries()[i]).session_id@
                    == session_id@ && *h == self.entries()[i].handle,
    {
        let id = session_id.to_owned();
        match self.find(&id) {
            None => None,
            Some(i) => Some(&self.entries[i].handle),
        }
    }

    /// The multiplexer name of the session with this id.
    pub fn name_of(&self, session_id: &str) -> (r: Option<String>)
        requires
            self.wf(),
        ensures
            r is None <==> !self.has_id(session_id@),
            r matches Some(n) ==> exists|i: int|
                0 <= i < self.entries().len() && (#[trigger] self.entries()[i]).session_id@
                    == session_id@ && n@ == self.entries()[i].session_name@,
    {
        let id = session_id.to_owned();
        match self.find(&id) {
            None => None,
            Some(i) => Some(self.entries[i].session_name.clone()),
        }
    }

    /// The multiplexer names of the attached sessions, in order.
    pub fn attached_names(&self) -> (r: Vec<String>)
        ensures
            names(r@) == self.entries().map_values(|e: AttachedSession<H>| e.session_name@),
    {
        let mut r: Vec<String> = Vec::new();
        let mut i: usize = 0;
        while i < self.entries.len()
            invariant
                i <= self.entries@.len(),
                names(r@) == self.entries@.subrange(0, i as int).map_values(
                    |e: AttachedSession<H>| e.session_name@,
                ),
            decreases self.entries.len() - i,
        {
            let ghost prev = names(r@);
            r.push(self.entries[i].session_name.clone());
            proof {
                assert(names(r@) =~= prev.push(self.entries@[i as int].session_name@));
                assert(self.entries@.subrange(0, i + 1).map_values(
                    |e: AttachedSession<H>| e.session_name@,
                ) =~= self.entries@.subrange(0, i as int).map_values(
                    |e: AttachedSession<H>| e.session_name@,
                ).push(self.entries@[i as int].session_name@));
            }
            i += 1;
        }
        proof {
            assert(self.entries@.subrange(0, i as int) =~= self.entries@);
        }
        r
    }

    /// Number of attached sessions.
    pub fn len(&self) -> (r: usize)
        ensures
            r == self.entries().len(),
    {
        self.entries.len()
    }
}

} // verus!
