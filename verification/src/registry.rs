//! The session registry: the single source of truth for which sessions
//! exist right now.
//!
//! The registry maps a connection id to its transport handle and session
//! state. The host keeps one registry behind one mutual-exclusion boundary;
//! every transport callback goes through [`SessionRegistry::with_session`],
//! the sole mutation entry point, so one callback's work on one id can
//! never disturb another id's entry. Ids are allocated by the registry
//! itself and never reused while a session is registered.
//!
//! The registry is generic in the handle type `H`: the handle is carried,
//! never read.

use vstd::prelude::*;

use crate::session;
use crate::session::AppView;

verus! {

/// A state transition to run against one session's entry.
#[derive(Debug)]
pub enum SessionOp {
    /// Serve a route: plain mode rewrites the content, interactive mode
    /// asks for a redraw.
    Serve(Option<String>),
    /// Feed raw input bytes to the session.
    Input(Vec<u8>),
    /// Record a window resize.
    Resize(u16, u16),
    /// Take the session's pending link-fetch request.
    TakeFetchRequest,
    /// Fold fetch-completion messages into the session, in arrival order.
    Deliver(Vec<crate::interactive::AppMessage>),
    /// Read what the session's screen shows; changes nothing.
    Display,
}

/// What a [`SessionOp`] handed back.
#[derive(Debug)]
pub enum SessionReply {
    /// The content to send (plain mode) and whether to redraw (interactive).
    Served { content: String, redraw: bool },
    /// Whether the session asked to end.
    HandledInput { exit: bool },
    /// Whether the host must resize its render surface.
    Resized { resize_surface: bool },
    /// Whether a link fetch must be started.
    FetchRequest { pending: bool },
    /// The messages were folded in.
    Delivered,
    /// What the screen shows: the link display and whether the exit hint
    /// is up.
    Screen { display: crate::interactive::LinkDisplay, exit_hint: bool },
}

/// Why a registry operation could not run.
#[derive(Clone, Copy, PartialEq, Eq, Structural, Debug)]
pub enum RegistryError {
    /// No session is registered under the given id.
    NotFound,
}

/// What the data callback decided.
#[derive(Clone, Copy, PartialEq, Eq, Structural, Debug)]
pub enum DataOutcome {
    /// No session under this id: take no further action.
    NotFound,
    /// Input applied; the session goes on.
    Continue,
    /// The session asked to quit and its entry is gone; close the channel.
    Closed,
}

/// Whether some entry of `s` carries the key `k`.
spec fn has_key<H>(s: Seq<(u64, H, session::App)>, k: u64) -> bool {
    exists|i: int| 0 <= i < s.len() && s[i].0 == k
}

/// The position of the entry carrying `k`.
spec fn index_of<H>(s: Seq<(u64, H, session::App)>, k: u64) -> int {
    choose|i: int| 0 <= i < s.len() && s[i].0 == k
}

/// No two entries carry the same key.
spec fn unique_keys<H>(s: Seq<(u64, H, session::App)>) -> bool {
    forall|i: int, j: int| 0 <= i < j < s.len() ==> s[i].0 != s[j].0
}

/// The map an entry sequence denotes.
spec fn map_of<H>(s: Seq<(u64, H, session::App)>) -> Map<u64, (H, AppView)> {
    Map::new(
        |k: u64| has_key(s, k),
        |k: u64| (s[index_of(s, k)].1, s[index_of(s, k)].2@),
    )
}

/// With unique keys, the entry at position `i` is the one its key finds.
proof fn lemma_entry_lookup<H>(s: Seq<(u64, H, session::App)>, i: int)
    requires
        unique_keys(s),
        0 <= i < s.len(),
    ensures
        has_key(s, s[i].0),
        index_of(s, s[i].0) == i,
        map_of(s).contains_key(s[i].0),
        map_of(s)[s[i].0] == (s[i].1, s[i].2@),
{
    assert(has_key(s, s[i].0));
    let j = index_of(s, s[i].0);
    if j < i {
        assert(s[j].0 != s[i].0);
    } else if i < j {
        assert(s[i].0 != s[j].0);
    }
}

/// Updating position `i` in place, keeping its key, rewrites exactly that
/// key's value in the denoted map.
proof fn lemma_map_update<H>(s: Seq<(u64, H, session::App)>, i: int, e: (u64, H, session::App))
    requires
        unique_keys(s),
        0 <= i < s.len(),
        e.0 == s[i].0,
    ensures
        unique_keys(s.update(i, e)),
        map_of(s.update(i, e)) == map_of(s).insert(e.0, (e.1, e.2@)),
{
    let s2 = s.update(i, e);
    assert(forall|a: int| 0 <= a < s2.len() ==> s2[a].0 == s[a].0);
    assert forall|k: u64| has_key(s2, k) == has_key(s, k) by {
        if has_key(s2, k) {
            let w = choose|w: int| 0 <= w < s2.len() && s2[w].0 == k;
            assert(s[w].0 == k);
        }
        if has_key(s, k) {
            let w = choose|w: int| 0 <= w < s.len() && s[w].0 == k;
            assert(s2[w].0 == k);
        }
    }
    assert forall|k: u64| #[trigger] map_of(s2).contains_key(k) implies map_of(s2)[k] == map_of(
        s,
    ).insert(e.0, (e.1, e.2@))[k] by {
        let j = index_of(s2, k);
        assert(0 <= j < s2.len() && s2[j].0 == k);
        lemma_entry_lookup(s2, j);
        if k == e.0 {
            lemma_entry_lookup(s2, i);
            assert(j == i);
        } else {
            assert(j != i);
            assert(s[j] == s2[j]);
            lemma_entry_lookup(s, j);
        }
    }
    assert(map_of(s2) =~= map_of(s).insert(e.0, (e.1, e.2@)));
}

/// Appending an entry with a fresh key inserts exactly that key.
proof fn lemma_map_push<H>(s: Seq<(u64, H, session::App)>, e: (u64, H, session::App))
    requires
        unique_keys(s),
        !has_key(s, e.0),
    ensures
        unique_keys(s.push(e)),
        map_of(s.push(e)) == map_of(s).insert(e.0, (e.1, e.2@)),
{
    let s2 = s.push(e);
    assert(forall|a: int| 0 <= a < s.len() ==> s2[a] == s[a]);
    assert(s2[s.len() as int] == e);
    assert forall|a: int, b: int| 0 <= a < b < s2.len() implies s2[a].0 != s2[b].0 by {
        if b < s.len() {
        } else {
            assert(b == s.len());
            assert(s2[a].0 == s[a].0);
            if s2[a].0 == e.0 {
                assert(has_key(s, e.0));
            }
        }
    }
    assert forall|k: u64| #[trigger] map_of(s2).contains_key(k) implies map_of(s2)[k] == map_of(
        s,
    ).insert(e.0, (e.1, e.2@))[k] by {
        let j = index_of(s2, k);
        assert(0 <= j < s2.len() && s2[j].0 == k);
        lemma_entry_lookup(s2, j);
        if k == e.0 {
            lemma_entry_lookup(s2, s.len() as int);
            assert(j == s.len());
        } else {
            assert(j != s.len());
            assert(s2[j] == s[j]);
            lemma_entry_lookup(s, j);
        }
    }
    assert forall|k: u64| has_key(s, k) implies has_key(s2, k) by {
        let w = choose|w: int| 0 <= w < s.len() && s[w].0 == k;
        assert(s2[w].0 == k);
    }
    assert forall|k: u64| has_key(s2, k) implies has_key(s, k) || k == e.0 by {
        let w = choose|w: int| 0 <= w < s2.len() && s2[w].0 == k;
        if w < s.len() {
            assert(s[w].0 == k);
        }
    }
    assert(map_of(s2) =~= map_of(s).insert(e.0, (e.1, e.2@)));
}

/// Removing the entry at position `i` removes exactly its key.
proof fn lemma_map_remove_at<H>(s: Seq<(u64, H, session::App)>, i: int)
    requires
        unique_keys(s),
        0 <= i < s.len(),
    ensures
        unique_keys(s.remove(i)),
        map_of(s.remove(i)) == map_of(s).remove(s[i].0),
{
    let s2 = s.remove(i);
    assert(s2.len() == s.len() - 1);
    assert(forall|a: int| 0 <= a < i ==> s2[a] == s[a]);
    assert(forall|a: int| i <= a < s2.len() ==> s2[a] == s[a + 1]);
    assert forall|a: int, b: int| 0 <= a < b < s2.len() implies s2[a].0 != s2[b].0 by {
        let a1 = if a < i {
            a
        } else {
            a + 1
        };
        let b1 = if b < i {
            b
        } else {
            b + 1
        };
        assert(s2[a] == s[a1]);
        assert(s2[b] == s[b1]);
        assert(s[a1].0 != s[b1].0);
    }
    assert forall|k: u64| #[trigger] map_of(s2).contains_key(k) implies map_of(s2)[k] == map_of(
        s,
    ).remove(s[i].0)[k] by {
        let j = index_of(s2, k);
        assert(0 <= j < s2.len() && s2[j].0 == k);
        lemma_entry_lookup(s2, j);
        let j1 = if j < i {
            j
        } else {
            j + 1
        };
        assert(s2[j] == s[j1]);
        lemma_entry_lookup(s, j1);
        assert(j1 != i);
    }
    assert forall|k: u64| has_key(s2, k) implies has_key(s, k) && k != s[i].0 by {
        let w = choose|w: int| 0 <= w < s2.len() && s2[w].0 == k;
        let w1 = if w < i {
            w
        } else {
            w + 1
        };
        assert(s2[w] == s[w1]);
        assert(s[w1].0 == k);
        if k == s[i].0 {
            lemma_entry_lookup(s, w1);
            lemma_entry_lookup(s, i);
        }
    }
    assert forall|k: u64| has_key(s, k) && k != s[i].0 implies has_key(s2, k) by {
        let w = choose|w: int| 0 <= w < s.len() && s[w].0 == k;
        if w < i {
            assert(s2[w].0 == k);
        } else {
            assert(w > i);
            assert(s2[w - 1] == s[w]);
        }
    }
    assert(map_of(s2) =~= map_of(s).remove(s[i].0));
}

/// The registry. `H` is the host's transport handle, carried untouched.
#[derive(Debug)]
pub struct SessionRegistry<H> {
    entries: Vec<(u64, H, session::App)>,
    next_id: u64,
}

impl<H> View for SessionRegistry<H> {
    type V = Map<u64, (H, AppView)>;

    closed spec fn view(&self) -> Map<u64, (H, AppView)> {
        map_of(self.entries@)
    }
}

impl<H> SessionRegistry<H> {
    /// Well-formedness: keys are unique, below the allocation watermark,
    /// and every registered session is itself well-formed.
    pub closed spec fn wf(&self) -> bool {
        &&& unique_keys(self.entries@)
        &&& forall|i: int|
            0 <= i < self.entries@.len() ==> (#[trigger] self.entries@[i]).0 < self.next_id
        &&& forall|i: int|
            0 <= i < self.entries@.len() ==> session::view_wf((#[trigger] self.entries@[i]).2@)
    }

    /// The next id the registry will hand out.
    pub closed spec fn spec_next_id(&self) -> u64 {
        self.next_id
    }

    /// An empty registry.
    pub fn new() -> (r: SessionRegistry<H>)
        ensures
            r@ == Map::<u64, (H, AppView)>::empty(),
            r.wf(),
            r.spec_next_id() == 0,
    {
        let r = SessionRegistry { entries: Vec::new(), next_id: 0u64 };
        proof {
            assert(r@ =~= Map::<u64, (H, AppView)>::empty());
        }
        r
    }

    /// The next id [`SessionRegistry::allocate_id`] would hand out; lets a
    /// caller check the allocation limit before asking.
    pub fn next_id(&self) -> (id: u64)
        ensures
            id == self.spec_next_id(),
    {
        self.next_id
    }

    /// Hands out a connection id never used before: fresh by construction,
    /// so two concurrent accepts can never collide.
    pub fn allocate_id(&mut self) -> (id: u64)
        requires
            old(self).wf(),
            old(self).spec_next_id() < u64::MAX,
        ensures
            final(self).wf(),
            id == old(self).spec_next_id(),
            final(self).spec_next_id() == id + 1,
            final(self)@ == old(self)@,
            !final(self)@.contains_key(id),
    {
        let id = self.next_id;
        self.next_id = self.next_id + 1;
        proof {
            if map_of(self.entries@).contains_key(id) {
                let w = index_of(self.entries@, id);
                assert(0 <= w < self.entries@.len() && self.entries@[w].0 == id);
            }
        }
        id
    }

    /// The position of the entry under `id`, if any.
    fn find(&self, id: u64) -> (r: Option<usize>)
        ensures
            match r {
                Some(i) => i < self.entries@.len() && self.entries@[i as int].0 == id,
                None => !has_key(self.entries@, id),
            },
    {
        let mut i: usize = 0;
        while i < self.entries.len()
            invariant
                i <= self.entries@.len(),
                forall|j: int| 0 <= j < i ==> (#[trigger] self.entries@[j]).0 != id,
            decreases self.entries@.len() - i,
        {
            if self.entries[i].0 == id {
                return Some(i);
            }
            i = i + 1;
        }
        None
    }

    /// Registers a session under `id`. If the id is already present the new
    /// entry wins, as a last-writer-wins overwrite.
    pub fn register(&mut self, id: u64, handle: H, app: session::App)
        requires
            old(self).wf(),
            app.wf(),
            id < old(self).spec_next_id(),
        ensures
            final(self).wf(),
            final(self)@ == old(self)@.insert(id, (handle, app@)),
            final(self).spec_next_id() == old(self).spec_next_id(),
    {
        self.remove(id);
        let ghost mid = self.entries@;
        proof {
            if has_key(mid, id) {
                let w = index_of(mid, id);
                assert(0 <= w < mid.len() && mid[w].0 == id);
                lemma_entry_lookup(mid, w);
                assert(map_of(mid).contains_key(id));
            }
            lemma_map_push(mid, (id, handle, app));
        }
        self.entries.push((id, handle, app));
        proof {
            assert(old(self)@.remove(id).insert(id, (handle, app@)) =~= old(self)@.insert(
                id,
                (handle, app@),
            ));
        }
    }

    /// Removes the session under `id`; removing an absent id is a no-op.
    /// This is the single teardown point: quit, disconnect and transport
    /// error all come here, and coming twice is harmless.
    pub fn remove(&mut self, id: u64)
        requires
            old(self).wf(),
        ensures
            final(self).wf(),
            final(self)@ == old(self)@.remove(id),
            final(self).spec_next_id() == old(self).spec_next_id(),
            !final(self)@.contains_key(id),
    {
        let found = self.find(id);
        match found {
            Some(i) => {
                proof {
                    lemma_map_remove_at(self.entries@, i as int);
                }
                self.entries.remove(i);
                proof {
                    if map_of(self.entries@).contains_key(id) {
                        let w = index_of(self.entries@, id);
                        assert(0 <= w < self.entries@.len() && self.entries@[w].0 == id);
                    }
                }
            },
            None => {
                proof {
                    if map_of(self.entries@).contains_key(id) {
                        let w = index_of(self.entries@, id);
                        assert(0 <= w < self.entries@.len() && self.entries@[w].0 == id);
                    }
                    assert(map_of(self.entries@).remove(id) =~= map_of(self.entries@));
                }
            },
        }
    }

    /// Runs one state transition against the entry under `id`: the sole
    /// mutation entry point for every transport callback. Absent ids get
    /// `NotFound` and the registry is untouched; stale callers can take no
    /// further action. Every other id's entry is left exactly as it was.
    pub fn with_session(&mut self, id: u64, op: SessionOp) -> (r: Result<
        SessionReply,
        RegistryError,
    >)
        requires
            old(self).wf(),
        ensures
            final(self).wf(),
            final(self).spec_next_id() == old(self).spec_next_id(),
            r is Ok <==> old(self)@.contains_key(id),
            !old(self)@.contains_key(id) ==> final(self)@ == old(self)@ && r == Err::<
                SessionReply,
                RegistryError,
            >(RegistryError::NotFound),
            // isolation: no other id's entry is observed or disturbed
            forall|j: u64|
                j != id && old(self)@.contains_key(j) ==> final(self)@.contains_key(j)
                    && final(self)@[j] == old(self)@[j],
            old(self)@.contains_key(id) ==> {
                let h = old(self)@[id].0;
                let v = old(self)@[id].1;
                match op {
                    SessionOp::Serve(route) => {
                        let v2 = session::spec_serve(
                            v,
                            match route {
                                Some(s) => Some(s@),
                                None => None,
                            },
                        );
                        &&& final(self)@ == old(self)@.insert(id, (h, v2))
                        &&& r matches Ok(SessionReply::Served { content, redraw })
                            && content@ == v2.content && redraw == (v.mode is Tui)
                    },
                    SessionOp::Input(data) => {
                        let v2 = session::spec_handle_input(v, data@).0;
                        &&& final(self)@ == old(self)@.insert(id, (h, v2))
                        &&& r matches Ok(SessionReply::HandledInput { exit })
                            && exit == session::spec_handle_input(v, data@).1
                    },
                    SessionOp::Resize(w, hgt) => {
                        &&& final(self)@ == old(self)@.insert(id, (h, session::spec_resize(v, w, hgt)))
                        &&& r matches Ok(SessionReply::Resized { resize_surface })
                            && resize_surface == (v.mode is Tui)
                    },
                    SessionOp::TakeFetchRequest => {
                        &&& final(self)@ == old(self)@.insert(id, (h, session::spec_take_fetch(v)))
                        &&& r matches Ok(SessionReply::FetchRequest { pending })
                            && pending == session::spec_pending_fetch(v)
                    },
                    SessionOp::Deliver(messages) => {
                        let ms = messages@.map_values(|m: crate::interactive::AppMessage| m@);
                        &&& final(self)@ == old(self)@.insert(id, (h, session::spec_deliver(v, ms)))
                        &&& r matches Ok(SessionReply::Delivered)
                    },
                    SessionOp::Display => {
                        &&& final(self)@ == old(self)@
                        &&& r matches Ok(SessionReply::Screen { display, exit_hint })
                            && display@ == session::spec_screen(v).0 && exit_hint
                            == session::spec_screen(v).1
                    },
                }
            },
    {
        let found = self.find(id);
        match found {
            None => {
                proof {
                    if map_of(self.entries@).contains_key(id) {
                        let w = index_of(self.entries@, id);
                        assert(0 <= w < self.entries@.len() && self.entries@[w].0 == id);
                    }
                }
                Err(RegistryError::NotFound)
            },
            Some(i) => {
                let ghost s0 = self.entries@;
                proof {
                    lemma_entry_lookup(s0, i as int);
                }
                let entry = &mut self.entries[i];
                let reply = match op {
                    SessionOp::Serve(route) => {
                        let eff = match &route {
                            Some(s) => entry.2.serve(Some(s.as_str())),
                            None => entry.2.serve(None),
                        };
                        let redraw = match eff {
                            session::ServeEffect::Updated => false,
                            session::ServeEffect::Redraw => true,
                        };
                        SessionReply::Served { content: entry.2.content.clone(), redraw }
                    },
                    SessionOp::Input(data) => {
                        let exit = entry.2.handle_input(data.as_slice());
                        SessionReply::HandledInput { exit }
                    },
                    SessionOp::Resize(w, hgt) => {
                        let resize_surface = entry.2.resize(w, hgt);
                        SessionReply::Resized { resize_surface }
                    },
                    SessionOp::TakeFetchRequest => {
                        let pending = entry.2.take_fetch_request();
                        SessionReply::FetchRequest { pending }
                    },
                    SessionOp::Deliver(messages) => {
                        entry.2.deliver_messages(messages);
                        SessionReply::Delivered
                    },
                    SessionOp::Display => {
                        let (display, exit_hint) = entry.2.screen();
                        SessionReply::Screen { display, exit_hint }
                    },
                };
                proof {
                    lemma_map_update(s0, i as int, self.entries@[i as int]);
                    assert(map_of(s0).insert(id, map_of(s0)[id]) =~= map_of(s0));
                }
                Ok(reply)
            },
        }
    }

    /// The data-callback decision: feeds the bytes to the session under
    /// `id`, and when the session asks to quit, evicts its entry before
    /// returning, so no later callback can touch it.
    pub fn on_data(&mut self, id: u64, data: &[u8]) -> (r: DataOutcome)
        requires
            old(self).wf(),
        ensures
            final(self).wf(),
            final(self).spec_next_id() == old(self).spec_next_id(),
            !old(self)@.contains_key(id) ==> r == DataOutcome::NotFound && final(self)@ == old(self)@,
            old(self)@.contains_key(id) ==> {
                let h = old(self)@[id].0;
                let v = old(self)@[id].1;
                let v2 = session::spec_handle_input(v, data@).0;
                let exit = session::spec_handle_input(v, data@).1;
                if exit {
                    r == DataOutcome::Closed && final(self)@ == old(self)@.remove(id)
                } else {
                    r == DataOutcome::Continue && final(self)@ == old(self)@.insert(id, (h, v2))
                }
            },
    {
        let data_vec = vstd::slice::slice_to_vec(data);
        match self.with_session(id, SessionOp::Input(data_vec)) {
            Err(_) => DataOutcome::NotFound,
            Ok(SessionReply::HandledInput { exit }) => {
                if exit {
                    let ghost mid = self@;
                    self.remove(id);
                    proof {
                        assert(mid.remove(id) =~= old(self)@.remove(id));
                    }
                    DataOutcome::Closed
                } else {
                    DataOutcome::Continue
                }
            },
            Ok(_) => {
                proof {
                    assert(false);
                }
                DataOutcome::NotFound
            },
        }
    }

    /// How many sessions are registered.
    pub fn len(&self) -> (n: usize)
        requires
            self.wf(),
        ensures
            n == self@.dom().len(),
    {
        proof {
            lemma_dom_len(self.entries@);
        }
        self.entries.len()
    }
}

/// With unique keys, the denoted map's domain is exactly as large as the
/// entry sequence.
proof fn lemma_dom_len<H>(s: Seq<(u64, H, session::App)>)
    requires
        unique_keys(s),
    ensures
        map_of(s).dom().finite(),
        map_of(s).dom().len() == s.len(),
    decreases s.len(),
{
    if s.len() == 0 {
        assert(map_of(s).dom() =~= Set::<u64>::empty());
    } else {
        let prefix = s.drop_last();
        let e = s.last();
        lemma_dom_len(prefix);
        assert forall|k: u64| has_key(s, k) implies has_key(prefix, k) || k == e.0 by {
            let w = choose|w: int| 0 <= w < s.len() && s[w].0 == k;
            if w < prefix.len() {
                assert(prefix[w].0 == k);
            }
        }
        assert forall|k: u64| has_key(prefix, k) implies has_key(s, k) by {
            let w = choose|w: int| 0 <= w < prefix.len() && prefix[w].0 == k;
            assert(s[w].0 == k);
        }
        if has_key(prefix, e.0) {
            let w = choose|w: int| 0 <= w < prefix.len() && prefix[w].0 == e.0;
            assert(s[w].0 == s[s.len() - 1].0);
            assert(false);
        }
        assert(map_of(s).dom() =~= map_of(prefix).dom().insert(e.0));
    }
}

/// Law: removing an id that is not present is a no-op, so removing an id
/// twice leaves the registry exactly as one removal alone does.
pub proof fn lemma_remove_idempotent<H>(m: Map<u64, (H, AppView)>, x: u64)
    ensures
        m.remove(x).remove(x) == m.remove(x),
{
    assert(m.remove(x).remove(x) =~= m.remove(x));
}

/// Law: once an id has been removed, nothing is registered under it, so a
/// later lookup observes absence rather than stale state.
pub proof fn lemma_removed_not_found<H>(m: Map<u64, (H, AppView)>, x: u64)
    ensures
        !m.remove(x).contains_key(x),
{
}

/// Law: rewriting the entry of one id leaves every other id's entry — its
/// presence and its value — exactly as it was.
pub proof fn lemma_session_isolation<H>(m: Map<u64, (H, AppView)>, i: u64, v: (H, AppView), j: u64)
    requires
        i != j,
    ensures
        m.insert(i, v).contains_key(j) == m.contains_key(j),
        m.contains_key(j) ==> m.insert(i, v)[j] == m[j],
{
}

} // verus!
