//! The TCP rendezvous side: the registry of live sessions and the
//! announce-then-drain protocol that each session runs.

use vstd::prelude::*;
use crate::addr::PeerAddr;
use crate::seq_facts::lemma_push_contains;

verus! {

/// Whether a session with this id is among the entries.
pub open spec fn has_session(s: Seq<(usize, PeerAddr)>, id: usize) -> bool {
    exists|i: int| 0 <= i < s.len() && #[trigger] s[i].0 == id
}

/// The entries without those of session `id`, in their order.
pub open spec fn without_session(s: Seq<(usize, PeerAddr)>, id: usize) -> Seq<(usize, PeerAddr)>
    decreases s.len(),
{
    if s.len() == 0 {
        s
    } else {
        let rest = without_session(s.drop_last(), id);
        if s.last().0 == id {
            rest
        } else {
            rest.push(s.last())
        }
    }
}

/// The addresses of every session but `me`, in the order of the entries.
pub open spec fn other_addrs(s: Seq<(usize, PeerAddr)>, me: usize) -> Seq<PeerAddr>
    decreases s.len(),
{
    if s.len() == 0 {
        Seq::empty()
    } else {
        let rest = other_addrs(s.drop_last(), me);
        if s.last().0 == me {
            rest
        } else {
            rest.push(s.last().1)
        }
    }
}

/// An entry survives the removal of session `id` exactly when it belongs to
/// another session.
pub proof fn lemma_without_session_contains(s: Seq<(usize, PeerAddr)>, id: usize, e: (usize, PeerAddr))
    ensures
        without_session(s, id).contains(e) <==> (s.contains(e) && e.0 != id),
    decreases s.len(),
{
    if s.len() > 0 {
        let init = s.drop_last();
        lemma_without_session_contains(init, id, e);
        assert(s =~= init.push(s.last()));
        lemma_push_contains(init, s.last(), e);
        lemma_push_contains(without_session(init, id), s.last(), e);
    }
}

/// Session `id` is among the entries exactly when one of them holds it.
proof fn lemma_has_session_contains(s: Seq<(usize, PeerAddr)>, id: usize)
    ensures
        has_session(s, id) <==> exists|a: PeerAddr| s.contains((id, a)),
{
    if has_session(s, id) {
        let i = choose|i: int| 0 <= i < s.len() && #[trigger] s[i].0 == id;
        assert(s.contains((id, s[i].1)));
    }
    if exists|a: PeerAddr| s.contains((id, a)) {
        let a = choose|a: PeerAddr| s.contains((id, a));
        let i = choose|i: int| 0 <= i < s.len() && s[i] == (id, a);
        assert(s[i].0 == id);
    }
}

/// After session `id` is removed, no entry holds it, and every other session
/// keeps the entries it had.
pub proof fn lemma_without_session_has(s: Seq<(usize, PeerAddr)>, id: usize, other: usize)
    ensures
        !has_session(without_session(s, id), id),
        other != id ==> (has_session(without_session(s, id), other) <==> has_session(s, other)),
{
    let w = without_session(s, id);
    lemma_has_session_contains(w, id);
    lemma_has_session_contains(w, other);
    lemma_has_session_contains(s, other);
    assert forall|a: PeerAddr| !w.contains((id, a)) by {
        lemma_without_session_contains(s, id, (id, a));
    }
    assert forall|a: PeerAddr| w.contains((other, a)) <==> (other != id && s.contains((other, a))) by {
        lemma_without_session_contains(s, id, (other, a));
    }
}

/// The registry of live sessions of the TCP rendezvous server: each session's
/// id and the public address it was seen from. Ids come from a counter that
/// only grows, so an id is never handed out twice.
pub struct SessionStore {
    entries: Vec<(usize, PeerAddr)>,
    next_id: usize,
}

impl SessionStore {
    /// The live sessions, in the order they registered.
    pub closed spec fn sessions(&self) -> Seq<(usize, PeerAddr)> {
        self.entries@
    }

    /// The id that the next registration gets.
    pub closed spec fn next_session_id(&self) -> usize {
        self.next_id
    }

    /// Every live session holds an id that was already handed out.
    pub closed spec fn wf(&self) -> bool {
        forall|i: int| 0 <= i < self.entries@.len() ==> #[trigger] self.entries@[i].0 < self.next_id
    }

    pub fn new() -> (r: SessionStore)
        ensures
            r.wf(),
            r.sessions() == Seq::<(usize, PeerAddr)>::empty(),
            r.next_session_id() == 0,
    {
        SessionStore { entries: Vec::new(), next_id: 0 }
    }

    /// The id that the next registration gets.
    pub fn upcoming_id(&self) -> (r: usize)
        ensures
            r == self.next_session_id(),
    {
        self.next_id
    }

    /// Records a newly accepted peer under the next session id and returns
    /// that id.
    pub fn register(&mut self, addr: PeerAddr) -> (id: usize)
        requires
            old(self).wf(),
            old(self).next_session_id() < usize::MAX,
        ensures
            final(self).wf(),
            id == old(self).next_session_id(),
            !has_session(old(self).sessions(), id),
            final(self).sessions() == old(self).sessions().push((id, addr)),
            final(self).next_session_id() == id + 1,
            (final(self).sessions(), final(self).next_session_id())
                == store_step(old(self).sessions(), old(self).next_session_id(), StoreOp::Register(addr)),
    {
        let id = self.next_id;
        self.entries.push((id, addr));
        self.next_id = id + 1;
        proof {
            assert forall|i: int| 0 <= i < self.entries@.len() implies #[trigger] self.entries@[i].0
                < self.next_id by {
                if i < old(self).entries@.len() {
                    assert(self.entries@[i] == old(self).entries@[i]);
                }
            }
            assert forall|i: int| 0 <= i < old(self).entries@.len() implies #[trigger] old(
                self,
            ).entries@[i].0 != id by {}
        }
        id
    }

    /// Drops every entry of session `id`; the others stay in their order.
    pub fn remove(&mut self, id: usize)
        requires
            old(self).wf(),
        ensures
            final(self).wf(),
            final(self).sessions() == without_session(old(self).sessions(), id),
            final(self).next_session_id() == old(self).next_session_id(),
            (final(self).sessions(), final(self).next_session_id())
                == store_step(old(self).sessions(), old(self).next_session_id(), StoreOp::Remove(id)),
    {
        let mut kept: Vec<(usize, PeerAddr)> = Vec::new();
        let n = self.entries.len();
        let mut i: usize = 0;
        while i < n
            invariant
                n == self.entries@.len(),
                i <= n,
                kept@ == without_session(self.entries@.subrange(0, i as int), id),
            decreases n - i,
        {
            let e = self.entries[i];
            proof {
                let s = self.entries@.subrange(0, i as int + 1);
                assert(s.drop_last() =~= self.entries@.subrange(0, i as int));
            }
            if e.0 != id {
                kept.push(e);
            }
            i = i + 1;
        }
        proof {
            assert(self.entries@.subrange(0, n as int) =~= self.entries@);
            assert forall|j: int| 0 <= j < kept@.len() implies #[trigger] kept@[j].0 < self.next_id by {
                lemma_without_session_contains(self.entries@, id, kept@[j]);
                assert(kept@.contains(kept@[j]));
            }
        }
        self.entries = kept;
    }

    /// A copy of the live sessions as they stand now.
    pub fn snapshot(&self) -> (r: Vec<(usize, PeerAddr)>)
        ensures
            r@ == self.sessions(),
    {
        let mut out: Vec<(usize, PeerAddr)> = Vec::new();
        let n = self.entries.len();
        let mut i: usize = 0;
        while i < n
            invariant
                n == self.entries@.len(),
                i <= n,
                out@ == self.entries@.subrange(0, i as int),
            decreases n - i,
        {
            out.push(self.entries[i]);
            i = i + 1;
            proof {
                assert(out@ =~= self.entries@.subrange(0, i as int));
            }
        }
        proof {
            assert(self.entries@.subrange(0, n as int) =~= self.entries@);
        }
        out
    }
}

/// One operation on the session registry.
pub enum StoreOp {
    Register(PeerAddr),
    Remove(usize),
}

/// The registry (entries, next id) after one operation, as `register` and
/// `remove` change it; a registration with the counter exhausted is refused.
pub open spec fn store_step(s: Seq<(usize, PeerAddr)>, next: usize, op: StoreOp) -> (Seq<(usize, PeerAddr)>, usize) {
    match op {
        StoreOp::Register(a) => if next < usize::MAX {
            (s.push((next, a)), (next + 1) as usize)
        } else {
            (s, next)
        },
        StoreOp::Remove(id) => (without_session(s, id), next),
    }
}

/// The registry after a run of operations, in order.
pub open spec fn store_run(s: Seq<(usize, PeerAddr)>, next: usize, ops: Seq<StoreOp>) -> (Seq<(usize, PeerAddr)>, usize)
    decreases ops.len(),
{
    if ops.len() == 0 {
        (s, next)
    } else {
        let st = store_step(s, next, ops[0]);
        store_run(st.0, st.1, ops.subrange(1, ops.len() as int))
    }
}

/// Every entry holds an id below the counter.
pub open spec fn ids_below(s: Seq<(usize, PeerAddr)>, next: usize) -> bool {
    forall|i: int| 0 <= i < s.len() ==> #[trigger] s[i].0 < next
}

/// Isolation of the registry under any interleaving of registrations and
/// removals: a session id that was handed out and is not live (it was
/// removed) never shows up again, and a live session stays visible to every
/// later snapshot until its own removal.
pub proof fn lemma_store_isolation(s: Seq<(usize, PeerAddr)>, next: usize, ops: Seq<StoreOp>, id: usize)
    requires
        ids_below(s, next),
    ensures
        id < next && !has_session(s, id) ==> !has_session(store_run(s, next, ops).0, id),
        has_session(s, id) && (forall|k: int| 0 <= k < ops.len() ==> ops[k] != StoreOp::Remove(id))
            ==> has_session(store_run(s, next, ops).0, id),
    decreases ops.len(),
{
    if ops.len() > 0 {
        let st = store_step(s, next, ops[0]);
        let tail = ops.subrange(1, ops.len() as int);
        match ops[0] {
            StoreOp::Register(a) => {
                if next < usize::MAX {
                    assert(st.0[s.len() as int] == (next, a));
                    assert forall|i: int| 0 <= i < st.0.len() implies #[trigger] st.0[i].0 < st.1 by {
                        if i < s.len() {
                            assert(st.0[i] == s[i]);
                        }
                    }
                    if id < next && !has_session(s, id) {
                        assert forall|i: int| 0 <= i < st.0.len() implies #[trigger] st.0[i].0 != id by {
                            if i < s.len() {
                                assert(st.0[i] == s[i]);
                            }
                        }
                    }
                    if has_session(s, id) {
                        let i = choose|i: int| 0 <= i < s.len() && #[trigger] s[i].0 == id;
                        assert(st.0[i] == s[i]);
                    }
                }
            },
            StoreOp::Remove(r) => {
                lemma_without_session_has(s, r, id);
                assert forall|i: int| 0 <= i < st.0.len() implies #[trigger] st.0[i].0 < st.1 by {
                    lemma_without_session_contains(s, r, st.0[i]);
                    assert(st.0.contains(st.0[i]));
                }
            },
        }
        lemma_store_isolation(st.0, st.1, tail, id);
        if forall|k: int| 0 <= k < ops.len() ==> ops[k] != StoreOp::Remove(id) {
            assert(ops[0] != StoreOp::Remove(id));
            assert forall|k: int| 0 <= k < tail.len() implies tail[k] != StoreOp::Remove(id) by {
                assert(tail[k] == ops[k + 1]);
            }
        }
    }
}

/// Where a session of the TCP rendezvous server stands.
#[derive(Clone, Copy, Debug, PartialEq, Eq, Structural)]
pub enum SessionPhase {
    /// No other peer has been announced yet: poll the registry every second.
    Announcing,
    /// The peers are announced: read the connection until it ends.
    Draining,
    /// The connection ended and the session left the registry.
    Closed,
}

/// What reading the session's connection gave.
#[derive(Clone, Copy, Debug, PartialEq, Eq, Structural)]
pub enum ReadEvent {
    Message,
    Failed,
    Closed,
}

/// One connected peer of the TCP rendezvous server.
pub struct StunSession {
    pub session_id: usize,
    pub addr: PeerAddr,
    pub phase: SessionPhase,
}

impl StunSession {
    pub fn new(session_id: usize, addr: PeerAddr) -> (r: StunSession)
        ensures
            r.session_id == session_id,
            r.addr == addr,
            r.phase == SessionPhase::Announcing,
    {
        StunSession { session_id, addr, phase: SessionPhase::Announcing }
    }

    /// One poll of the registry: the addresses of every other session in the
    /// snapshot are to be sent to this peer, one message each. Once at least
    /// one was found the session moves on to draining.
    pub fn announce(&mut self, snapshot: &Vec<(usize, PeerAddr)>) -> (r: Vec<PeerAddr>)
        requires
            old(self).phase == SessionPhase::Announcing,
        ensures
            r@ == other_addrs(snapshot@, old(self).session_id),
            final(self).phase == (if r@.len() > 0 {
                SessionPhase::Draining
            } else {
                SessionPhase::Announcing
            }),
            final(self).session_id == old(self).session_id,
            final(self).addr == old(self).addr,
    {
        let mut out: Vec<PeerAddr> = Vec::new();
        let n = snapshot.len();
        let mut i: usize = 0;
        while i < n
            invariant
                n == snapshot@.len(),
                i <= n,
                out@ == other_addrs(snapshot@.subrange(0, i as int), self.session_id),
            decreases n - i,
        {
            let e = snapshot[i];
            proof {
                let s = snapshot@.subrange(0, i as int + 1);
                assert(s.drop_last() =~= snapshot@.subrange(0, i as int));
            }
            if e.0 != self.session_id {
                out.push(e.1);
            }
            i = i + 1;
        }
        proof {
            assert(snapshot@.subrange(0, n as int) =~= snapshot@);
        }
        if out.len() > 0 {
            self.phase = SessionPhase::Draining;
        }
        out
    }

    /// Reacts to one read of the connection while draining. A message is
    /// only a sign of life: keep reading. A read error or the end of the
    /// connection closes the session, which takes its own entry, and only
    /// that one, out of the registry. Returns whether to keep reading.
    pub fn on_read(&mut self, event: ReadEvent, store: &mut SessionStore) -> (keep_reading: bool)
        requires
            old(self).phase == SessionPhase::Draining,
            old(store).wf(),
        ensures
            final(store).wf(),
            keep_reading == (event == ReadEvent::Message),
            keep_reading ==> final(self).phase == SessionPhase::Draining
                && final(store).sessions() == old(store).sessions(),
            !keep_reading ==> final(self).phase == SessionPhase::Closed
                && final(store).sessions() == without_session(old(store).sessions(), old(self).session_id),
            final(store).next_session_id() == old(store).next_session_id(),
            final(self).session_id == old(self).session_id,
            final(self).addr == old(self).addr,
    {
        match event {
            ReadEvent::Message => true,
            _ => {
                store.remove(self.session_id);
                self.phase = SessionPhase::Closed;
                false
            },
        }
    }
}

} // verus!
