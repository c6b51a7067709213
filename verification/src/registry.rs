//! The context registry: the explicit stand-in for the process-global lock
//! and counter that serialize context creation and id allocation.

use vstd::prelude::*;

use crate::context::ContextID;

verus! {

/// Allocates context ids and tracks, as ghost state, which ids belong to
/// currently-live contexts. One registry is constructed per device; every
/// creation and destruction through that device goes through its registry,
/// which plays the part a process-global creation lock and counter would:
/// creations are totally ordered and id allocation is atomic with creation.
pub struct ContextRegistry {
    /// The id the next creation receives. Ids increase monotonically.
    pub next_id: u64,
    /// The ids of contexts created and not yet destroyed.
    pub live: Ghost<Set<u64>>,
}

impl ContextRegistry {
    /// A registry is well formed when every live id lies strictly below the
    /// next id to be allocated. Allocation and retirement preserve this.
    pub open spec fn wf(self) -> bool {
        forall|i: u64| self.live@.contains(i) ==> i < self.next_id
    }

    /// A fresh registry: no context has been created yet.
    pub fn new() -> (r: ContextRegistry)
        ensures
            r.wf(),
            r.next_id == 0,
            r.live@ == Set::<u64>::empty(),
    {
        ContextRegistry { next_id: 0, live: Ghost(Set::empty()) }
    }

    /// Allocates the id for a context being created: the next id, which no
    /// live context holds, and which becomes live.
    pub fn allocate(&mut self) -> (id: ContextID)
        requires
            old(self).wf(),
            old(self).next_id < u64::MAX,
        ensures
            final(self).wf(),
            id == ContextID(old(self).next_id),
            !old(self).live@.contains(id.0),
            final(self).next_id == old(self).next_id + 1,
            final(self).live@ == old(self).live@.insert(id.0),
    {
        let id = ContextID(self.next_id);
        self.next_id = self.next_id + 1;
        self.live = Ghost(self.live@.insert(id.0));
        id
    }

    /// Retires the id of a context being destroyed: the id leaves the live
    /// set and may be reused by a later creation.
    pub fn retire(&mut self, id: ContextID)
        requires
            old(self).wf(),
        ensures
            final(self).wf(),
            final(self).next_id == old(self).next_id,
            final(self).live@ == old(self).live@.remove(id.0),
    {
        self.live = Ghost(self.live@.remove(id.0));
    }
}

/// Law: live context ids are pairwise distinct at every instant, because the
/// id a creation allocates is never the id of any live context. In
/// particular, after a context is destroyed its id leaves the live set, so a
/// later creation may reuse it — yet the id allocated next never collides
/// with the id of any still-live context.
pub proof fn lemma_fresh_id_not_live(r: ContextRegistry, live_id: u64)
    requires
        r.wf(),
        r.live@.contains(live_id),
    ensures
        r.next_id != live_id,
{
}

} // verus!
