use vstd::prelude::*;
use crate::fdmode::FileDescriptorTransportMode;
use crate::transport::OwnedDescriptor;

verus! {

/// Who opened a session.
#[derive(Clone, Copy, Debug, PartialEq, Eq, Structural)]
pub enum Direction {
    /// A peer connected to the server's endpoint.
    Inbound,
    /// The server dialled back to a peer that asked for callbacks.
    Outbound,
}

/// One established connection to a peer.
///
/// The session exclusively owns its transport descriptor from the moment it
/// is admitted until the registry removes it and hands the descriptor back
/// for closing. No session outlives the registry that holds it.
pub struct Session {
    /// Registry-unique identity, assigned at admission.
    pub id: u64,
    /// Who opened the session.
    pub direction: Direction,
    /// The descriptor-passing mode negotiated at establishment; always one
    /// the server advertised, or the baseline.
    pub mode: FileDescriptorTransportMode,
    /// The connection's transport descriptor, owned by this session alone.
    pub descriptor: OwnedDescriptor,
}

/// The table of live sessions.
///
/// Sessions enter on admission and leave on peer disconnect or during
/// shutdown; identities are never reused.
pub struct SessionRegistry {
    /// The live sessions, in admission order.
    pub sessions: Vec<Session>,
    /// The identity the next admitted session will get; strictly above every
    /// identity ever handed out.
    pub next_id: u64,
}

impl SessionRegistry {
    /// What `new` establishes and every method preserves: identities are
    /// unique, below `next_id`, and every held descriptor is open.
    pub open spec fn wf(self) -> bool {
        &&& forall|i: int|
            0 <= i < self.sessions@.len() ==> (#[trigger] self.sessions@[i]).id < self.next_id
        &&& forall|i: int, j: int|
            0 <= i < j < self.sessions@.len() ==> self.sessions@[i].id != self.sessions@[j].id
        &&& forall|i: int|
            0 <= i < self.sessions@.len() ==> (#[trigger] self.sessions@[i]).descriptor.wf()
    }

    /// Whether a live session carries the identity `id`.
    pub open spec fn spec_contains_id(self, id: u64) -> bool {
        exists|i: int| 0 <= i < self.sessions@.len() && self.sessions@[i].id == id
    }

    /// Whether another session can still get a fresh identity.
    pub open spec fn spec_has_capacity(self) -> bool {
        self.next_id < u64::MAX
    }

    /// An empty registry.
    pub fn new() -> (r: SessionRegistry)
        ensures
            r.wf(),
            r.sessions@.len() == 0,
            r.next_id == 0,
    {
        SessionRegistry { sessions: Vec::new(), next_id: 0 }
    }

    /// Executable mirror of `spec_has_capacity`.
    pub fn has_capacity(&self) -> (r: bool)
        ensures
            r == self.spec_has_capacity(),
    {
        self.next_id < u64::MAX
    }

    /// How many sessions are live.
    pub fn len(&self) -> (n: usize)
        ensures
            n == self.sessions@.len(),
    {
        self.sessions.len()
    }

    /// Admits a session: stores it under a fresh identity and returns that
    /// identity.
    pub fn insert(
        &mut self,
        direction: Direction,
        mode: FileDescriptorTransportMode,
        descriptor: OwnedDescriptor,
    ) -> (id: u64)
        requires
            old(self).wf(),
            old(self).spec_has_capacity(),
            descriptor.wf(),
        ensures
            final(self).wf(),
            id == old(self).next_id,
            final(self).next_id == old(self).next_id + 1,
            final(self).sessions@ == old(self).sessions@.push(
                (Session { id, direction, mode, descriptor }),
            ),
            final(self).spec_contains_id(id),
    {
        let id = self.next_id;
        self.next_id = self.next_id + 1;
        self.sessions.push(Session { id, direction, mode, descriptor });
        proof {
            assert(self.sessions@[self.sessions@.len() - 1].id == id);
        }
        id
    }

    /// Removes the session with identity `id`, handing it back so the caller
    /// can close its descriptor; `None` when no live session carries `id`.
    pub fn remove(&mut self, id: u64) -> (r: Option<Session>)
        requires
            old(self).wf(),
        ensures
            final(self).wf(),
            final(self).next_id == old(self).next_id,
            match r {
                Some(s) => {
                    &&& s.id == id
                    &&& s.descriptor.wf()
                    &&& exists|i: int|
                        0 <= i < old(self).sessions@.len() && old(self).sessions@[i] == s
                            && final(self).sessions@ == old(self).sessions@.remove(i)
                    &&& final(self).sessions@.len() == old(self).sessions@.len() - 1
                    &&& !final(self).spec_contains_id(id)
                },
                None => {
                    &&& !old(self).spec_contains_id(id)
                    &&& final(self).sessions@ == old(self).sessions@
                },
            },
    {
        let n = self.sessions.len();
        let mut i: usize = 0;
        while i < n
            invariant
                0 <= i <= n == self.sessions@.len(),
                self.wf(),
                self.next_id == old(self).next_id,
                self.sessions@ == old(self).sessions@,
                forall|j: int| 0 <= j < i ==> self.sessions@[j].id != id,
            decreases n - i,
        {
            if self.sessions[i].id == id {
                let ghost pre = self.sessions@;
                let ghost k = i as int;
                let s = self.sessions.remove(i);
                proof {
                    assert(self.sessions@ == pre.remove(k));
                    assert forall|a: int|
                        0 <= a < self.sessions@.len() implies (#[trigger] self.sessions@[a]).id
                        < self.next_id && self.sessions@[a].descriptor.wf() by {
                        if a < k {
                            assert(self.sessions@[a] == pre[a]);
                        } else {
                            assert(self.sessions@[a] == pre[a + 1]);
                        }
                    }
                    assert forall|a: int, b: int|
                        0 <= a < b < self.sessions@.len() implies self.sessions@[a].id
                        != self.sessions@[b].id by {
                        let a0 = if a < k {
                            a
                        } else {
                            a + 1
                        };
                        let b0 = if b < k {
                            b
                        } else {
                            b + 1
                        };
                        assert(self.sessions@[a] == pre[a0]);
                        assert(self.sessions@[b] == pre[b0]);
                    }
                    assert forall|a: int|
                        0 <= a < self.sessions@.len() implies (#[trigger] self.sessions@[a]).id
                        != id by {
                        if a < k {
                            assert(self.sessions@[a] == pre[a]);
                        } else {
                            assert(self.sessions@[a] == pre[a + 1]);
                            assert(pre[a + 1].id != pre[k].id);
                        }
                    }
                }
                return Some(s);
            }
            i += 1;
        }
        None
    }

    /// The identities of all live sessions, in admission order; what a
    /// drain loop walks to close every session.
    pub fn ids(&self) -> (r: Vec<u64>)
        ensures
            r@ == self.sessions@.map_values(|s: Session| s.id),
    {
        let n = self.sessions.len();
        let mut r: Vec<u64> = Vec::new();
        let mut i: usize = 0;
        while i < n
            invariant
                0 <= i <= n == self.sessions@.len(),
                r@ == self.sessions@.subrange(0, i as int).map_values(|s: Session| s.id),
            decreases n - i,
        {
            r.push(self.sessions[i].id);
            proof {
                assert(self.sessions@.subrange(0, i + 1).map_values(|s: Session| s.id)
                    =~= self.sessions@.subrange(0, i as int).map_values(|s: Session| s.id).push(
                    self.sessions@[i as int].id,
                ));
            }
            i += 1;
        }
        proof {
            assert(self.sessions@.subrange(0, n as int) =~= self.sessions@);
        }
        r
    }
}

/// Law: identities are never reused. Every live session's identity lies
/// below `next_id`, so the identity the next admission hands out is carried
/// by no session — and since `next_id` only ever grows, by no session that
/// ever existed.
pub proof fn lemma_next_identity_is_fresh(r: SessionRegistry)
    requires
        r.wf(),
    ensures
        !r.spec_contains_id(r.next_id),
{
}

} // verus!
