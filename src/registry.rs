//! The registry of queries: the one point where cancellation and the
//! supervising task meet.
//!
//! A query is admitted when it is submitted, becomes live when its process
//! is registered, and leaves the registry exactly once: by cancellation or
//! by the supervising task after its output has drained. A cancellation
//! that arrives before the process exists is remembered and carried out when
//! the process is registered.

use vstd::prelude::*;
use crate::text::same_text;

verus! {

/// A query's entry.
#[derive(Debug)]
pub enum Slot<H> {
    /// Submitted; the process does not exist yet.
    Pending,
    /// Cancelled before its process existed.
    Cancelled,
    /// Running, with the handle of its process.
    Live(H),
}

/// What a cancellation found.
#[derive(Debug, PartialEq, Eq)]
pub enum Cancellation<H> {
    /// The id is unknown, already cancelled or already finished; nothing changed.
    NotRunning,
    /// The query has no process yet; it will be killed when registered.
    Deferred,
    /// The query was running; its handle, to be killed.
    Kill(H),
}

impl<H> Cancellation<H> {
    /// Whether the cancellation found the query.
    pub fn found(&self) -> (r: bool)
        ensures
            r == !(self is NotRunning),
    {
        !matches!(self, Cancellation::NotRunning)
    }
}

/// What registering a spawned process found.
#[derive(Debug, PartialEq, Eq)]
pub enum Admission<H> {
    /// The query is now live.
    Registered,
    /// The query was cancelled while spawning; its handle, to be killed.
    Cancelled(H),
    /// Another process is live under this id; the handle is handed back.
    Duplicate(H),
}

pub open spec fn enroll_effect<H>(m: Map<Seq<char>, Slot<H>>, id: Seq<char>) -> (Map<Seq<char>, Slot<H>>, bool) {
    if m.contains_key(id) {
        (m, false)
    } else {
        (m.insert(id, Slot::Pending), true)
    }
}

pub open spec fn cancel_effect<H>(m: Map<Seq<char>, Slot<H>>, id: Seq<char>) -> (Map<Seq<char>, Slot<H>>, Cancellation<H>) {
    if !m.contains_key(id) {
        (m, Cancellation::NotRunning)
    } else {
        match m[id] {
            Slot::Live(h) => (m.remove(id), Cancellation::Kill(h)),
            Slot::Pending => (m.insert(id, Slot::Cancelled), Cancellation::Deferred),
            Slot::Cancelled => (m, Cancellation::NotRunning),
        }
    }
}

pub open spec fn register_effect<H>(m: Map<Seq<char>, Slot<H>>, id: Seq<char>, h: H) -> (Map<Seq<char>, Slot<H>>, Admission<H>) {
    if !m.contains_key(id) {
        (m.insert(id, Slot::Live(h)), Admission::Registered)
    } else {
        match m[id] {
            Slot::Pending => (m.insert(id, Slot::Live(h)), Admission::Registered),
            Slot::Cancelled => (m.remove(id), Admission::Cancelled(h)),
            Slot::Live(_) => (m, Admission::Duplicate(h)),
        }
    }
}

/// What the supervising task's removal does: a live entry is taken out and
/// its handle handed back; anything else is left as it is.
pub open spec fn removal<H>(m: Map<Seq<char>, Slot<H>>, id: Seq<char>) -> (Map<Seq<char>, Slot<H>>, Option<H>) {
    if m.contains_key(id) && m[id] is Live {
        (m.remove(id), Some(m[id]->Live_0))
    } else {
        (m, None)
    }
}

/// Dropping a query whose process could not be spawned.
pub open spec fn withdraw_effect<H>(m: Map<Seq<char>, Slot<H>>, id: Seq<char>) -> Map<Seq<char>, Slot<H>> {
    if m.contains_key(id) && !(m[id] is Live) {
        m.remove(id)
    } else {
        m
    }
}

/// Queries by id.
pub struct Registry<H> {
    entries: Vec<(String, Slot<H>)>,
    contents: Ghost<Map<Seq<char>, Slot<H>>>,
}

impl<H> View for Registry<H> {
    type V = Map<Seq<char>, Slot<H>>;

    closed spec fn view(&self) -> Map<Seq<char>, Slot<H>> {
        self.contents@
    }
}

impl<H> Registry<H> {
    /// Ids are unique, and the entries are exactly the contents.
    pub closed spec fn wf(&self) -> bool {
        &&& forall|i: int, j: int|
            0 <= i < j < self.entries@.len() ==> #[trigger] self.entries@[i].0@ != #[trigger] self.entries@[j].0@
        &&& forall|i: int|
            0 <= i < self.entries@.len() ==> #[trigger] self.contents@.contains_key(self.entries@[i].0@)
                && self.contents@[self.entries@[i].0@] == self.entries@[i].1
        &&& forall|k: Seq<char>|
            #[trigger] self.contents@.contains_key(k) ==> exists|i: int|
                0 <= i < self.entries@.len() && #[trigger] self.entries@[i].0@ == k
    }

    /// An empty registry.
    pub fn new() -> (r: Registry<H>)
        ensures
            r.wf(),
            r@ == Map::<Seq<char>, Slot<H>>::empty(),
    {
        Registry { entries: Vec::new(), contents: Ghost(Map::empty()) }
    }

    fn position(&self, id: &str) -> (r: Option<usize>)
        requires
            self.wf(),
        ensures
            r is None <==> !self@.contains_key(id@),
            r is Some ==> r->0 < self.entries@.len() && self.entries@[r->0 as int].0@ == id@
                && self@[id@] == self.entries@[r->0 as int].1,
    {
        let mut i: usize = 0;
        while i < self.entries.len()
            invariant
                self.wf(),
                i <= self.entries@.len(),
                forall|k: int| 0 <= k < i ==> self.entries@[k].0@ != id@,
            decreases self.entries@.len() - i,
        {
            if same_text(self.entries[i].0.as_str(), id) {
                return Some(i);
            }
            i += 1;
        }
        None
    }

    fn append(&mut self, id: String, slot: Slot<H>)
        requires
            old(self).wf(),
            !old(self)@.contains_key(id@),
        ensures
            final(self).wf(),
            final(self)@ == old(self)@.insert(id@, slot),
    {
        let ghost key = id@;
        let ghost value = slot;
        self.entries.push((id, slot));
        self.contents = Ghost(self.contents@.insert(key, value));
        assert forall|k: Seq<char>| #[trigger] self.contents@.contains_key(k) implies exists|i: int|
            0 <= i < self.entries@.len() && #[trigger] self.entries@[i].0@ == k by {
            if k == key {
                assert(self.entries@[self.entries@.len() - 1].0@ == k);
            } else {
                let i = choose|i: int|
                    0 <= i < old(self).entries@.len() && #[trigger] old(self).entries@[i].0@ == k;
                assert(self.entries@[i] == old(self).entries@[i]);
            }
        }
    }

    fn replace_at(&mut self, p: usize, slot: Slot<H>)
        requires
            old(self).wf(),
            p < old(self).entries@.len(),
        ensures
            final(self).wf(),
            final(self)@ == old(self)@.insert(old(self).entries@[p as int].0@, slot),
    {
        let ghost key = self.entries@[p as int].0@;
        let ghost value = slot;
        let k = self.entries[p].0.clone();
        self.entries.set(p, (k, slot));
        self.contents = Ghost(self.contents@.insert(key, value));
        assert forall|i: int| 0 <= i < self.entries@.len() implies #[trigger] self.contents@.contains_key(
            self.entries@[i].0@,
        ) && self.contents@[self.entries@[i].0@] == self.entries@[i].1 by {
            if i != p {
                assert(self.entries@[i] == old(self).entries@[i]);
                if i < p {
                    assert(old(self).entries@[i].0@ != old(self).entries@[p as int].0@);
                } else {
                    assert(old(self).entries@[p as int].0@ != old(self).entries@[i].0@);
                }
            }
        }
        assert forall|i: int, j: int|
            0 <= i < j < self.entries@.len() implies #[trigger] self.entries@[i].0@
            != #[trigger] self.entries@[j].0@ by {
            assert(self.entries@[i].0@ == old(self).entries@[i].0@);
            assert(self.entries@[j].0@ == old(self).entries@[j].0@);
        }
        assert forall|k: Seq<char>| #[trigger] self.contents@.contains_key(k) implies exists|i: int|
            0 <= i < self.entries@.len() && #[trigger] self.entries@[i].0@ == k by {
            let i = choose|i: int|
                0 <= i < old(self).entries@.len() && #[trigger] old(self).entries@[i].0@ == k;
            assert(self.entries@[i].0@ == old(self).entries@[i].0@);
        }
    }

    fn take_at(&mut self, p: usize) -> (r: Slot<H>)
        requires
            old(self).wf(),
            p < old(self).entries@.len(),
        ensures
            final(self).wf(),
            r == old(self).entries@[p as int].1,
            final(self)@ == old(self)@.remove(old(self).entries@[p as int].0@),
    {
        let ghost old_entries = self.entries@;
        let ghost key = self.entries@[p as int].0@;
        let entry = self.entries.remove(p);
        self.contents = Ghost(self.contents@.remove(key));
        assert forall|i: int| 0 <= i < self.entries@.len() implies #[trigger] self.contents@.contains_key(
            self.entries@[i].0@,
        ) && self.contents@[self.entries@[i].0@] == self.entries@[i].1 by {
            if i < p {
                assert(self.entries@[i] == old_entries[i]);
                assert(old_entries[i].0@ != old_entries[p as int].0@);
            } else {
                assert(self.entries@[i] == old_entries[i + 1]);
                assert(old_entries[p as int].0@ != old_entries[i + 1].0@);
            }
        }
        assert forall|i: int, j: int|
            0 <= i < j < self.entries@.len() implies #[trigger] self.entries@[i].0@
            != #[trigger] self.entries@[j].0@ by {
            let oi = if i < p { i } else { i + 1 };
            let oj = if j < p { j } else { j + 1 };
            assert(self.entries@[i] == old_entries[oi]);
            assert(self.entries@[j] == old_entries[oj]);
        }
        assert forall|k: Seq<char>| #[trigger] self.contents@.contains_key(k) implies exists|i: int|
            0 <= i < self.entries@.len() && #[trigger] self.entries@[i].0@ == k by {
            let oi = choose|oi: int| 0 <= oi < old_entries.len() && #[trigger] old_entries[oi].0@ == k;
            assert(oi != p);
            if oi < p {
                assert(self.entries@[oi] == old_entries[oi]);
            } else {
                assert(self.entries@[oi - 1] == old_entries[oi]);
            }
        }
        entry.1
    }

    /// Whether a query with this id has an entry.
    pub fn contains(&self, id: &str) -> (r: bool)
        requires
            self.wf(),
        ensures
            r == self@.contains_key(id@),
    {
        self.position(id).is_some()
    }

    /// Whether a query with this id is running.
    pub fn is_live(&self, id: &str) -> (r: bool)
        requires
            self.wf(),
        ensures
            r == (self@.contains_key(id@) && self@[id@] is Live),
    {
        match self.position(id) {
            Some(p) => matches!(self.entries[p].1, Slot::Live(_)),
            None => false,
        }
    }

    /// Enrolls a submitted query as pending. An id that already has an entry
    /// is refused and nothing changes.
    pub fn enroll(&mut self, id: String) -> (r: bool)
        requires
            old(self).wf(),
        ensures
            final(self).wf(),
            (final(self)@, r) == enroll_effect(old(self)@, id@),
    {
        if self.position(id.as_str()).is_some() {
            return false;
        }
        self.append(id, Slot::Pending);
        true
    }

    /// Cancels a query: a running one is removed and its handle returned for
    /// killing; a pending one is marked, to be killed when registered; for
    /// any other id nothing changes.
    pub fn cancel(&mut self, id: &str) -> (r: Cancellation<H>)
        requires
            old(self).wf(),
        ensures
            final(self).wf(),
            (final(self)@, r) == cancel_effect(old(self)@, id@),
    {
        match self.position(id) {
            None => Cancellation::NotRunning,
            Some(p) => {
                if matches!(self.entries[p].1, Slot::Live(_)) {
                    match self.take_at(p) {
                        Slot::Live(h) => Cancellation::Kill(h),
                        _ => Cancellation::NotRunning,
                    }
                } else if matches!(self.entries[p].1, Slot::Pending) {
                    self.replace_at(p, Slot::Cancelled);
                    Cancellation::Deferred
                } else {
                    Cancellation::NotRunning
                }
            },
        }
    }

    /// Registers the process of a query that was just spawned. A query
    /// cancelled meanwhile is removed and its handle handed back for killing.
    pub fn register(&mut self, id: String, handle: H) -> (r: Admission<H>)
        requires
            old(self).wf(),
        ensures
            final(self).wf(),
            (final(self)@, r) == register_effect(old(self)@, id@, handle),
    {
        match self.position(id.as_str()) {
            None => {
                self.append(id, Slot::Live(handle));
                Admission::Registered
            },
            Some(p) => {
                if matches!(self.entries[p].1, Slot::Pending) {
                    self.replace_at(p, Slot::Live(handle));
                    Admission::Registered
                } else if matches!(self.entries[p].1, Slot::Cancelled) {
                    let _ = self.take_at(p);
                    Admission::Cancelled(handle)
                } else {
                    Admission::Duplicate(handle)
                }
            },
        }
    }

    /// The supervising task's removal once output has drained: a running
    /// query's handle, or `None` when it was already cancelled.
    pub fn remove(&mut self, id: &str) -> (r: Option<H>)
        requires
            old(self).wf(),
        ensures
            final(self).wf(),
            (final(self)@, r) == removal(old(self)@, id@),
    {
        match self.position(id) {
            None => None,
            Some(p) => {
                if matches!(self.entries[p].1, Slot::Live(_)) {
                    match self.take_at(p) {
                        Slot::Live(h) => Some(h),
                        _ => None,
                    }
                } else {
                    None
                }
            },
        }
    }

    /// Drops the entry of a query whose process could not be spawned.
    pub fn withdraw(&mut self, id: &str)
        requires
            old(self).wf(),
        ensures
            final(self).wf(),
            final(self)@ == withdraw_effect(old(self)@, id@),
    {
        if let Some(p) = self.position(id) {
            if !matches!(self.entries[p].1, Slot::Live(_)) {
                let _ = self.take_at(p);
            }
        }
    }
}

/// Of a cancellation and the supervising task's removal of the same running
/// query, whichever comes first takes the handle, and the other finds
/// nothing and changes nothing.
pub proof fn lemma_one_removal_wins<H>(m: Map<Seq<char>, Slot<H>>, id: Seq<char>)
    requires
        m.contains_key(id),
        m[id] is Live,
    ensures
        cancel_effect(m, id).1 == Cancellation::Kill(m[id]->Live_0),
        removal(cancel_effect(m, id).0, id) == (cancel_effect(m, id).0, None::<H>),
        removal(m, id).1 == Some(m[id]->Live_0),
        cancel_effect(removal(m, id).0, id) == (removal(m, id).0, Cancellation::<H>::NotRunning),
{
}

/// Cancelling an id without an entry (unknown, or already finished) finds
/// nothing and changes nothing.
pub proof fn lemma_unknown_id_untouched<H>(m: Map<Seq<char>, Slot<H>>, id: Seq<char>)
    requires
        !m.contains_key(id),
    ensures
        cancel_effect(m, id) == (m, Cancellation::<H>::NotRunning),
{
}

/// A cancellation between submission and registration is honored: it is
/// reported as found, and registration then hands the new process back for
/// killing and leaves no entry.
pub proof fn lemma_early_cancel_honored<H>(m: Map<Seq<char>, Slot<H>>, id: Seq<char>, h: H)
    requires
        !m.contains_key(id),
    ensures
        ({
            let enrolled = enroll_effect(m, id).0;
            let cancelled = cancel_effect(enrolled, id);
            let registered = register_effect(cancelled.0, id, h);
            &&& cancelled.1 is Deferred
            &&& registered.1 == Admission::Cancelled(h)
            &&& !registered.0.contains_key(id)
        }),
{
}

} // verus!
