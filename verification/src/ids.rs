//! Identifier allocation for spans.
//!
//! Every span created through the standalone collector gets a numeric
//! identifier from an [`IdAllocator`]. Identifiers start at 1 and are handed
//! out in strictly increasing order, so no identifier is ever reused for the
//! lifetime of the allocator.
//!
//! Identifier uniqueness must hold process-wide, across every adapter
//! instance that may coexist. The allocator is therefore process-scoped
//! state: the attachment that owns the collectors keeps exactly one, outside
//! any single adapter instance (a `static` cannot live in this library), and
//! every `NvtxSubscriber` in the process draws from it. The uniqueness law
//! below then covers all identifiers the process ever hands out.

use vstd::prelude::*;

verus! {

/// Produces strictly increasing, never-reused span identifiers.
///
/// The ghost field `issued` records every identifier handed out so far, in
/// the order of allocation; the well-formedness invariant keeps that record
/// strictly increasing and below `next`, which is what makes uniqueness
/// provable.
pub struct IdAllocator {
    next: u64,
    issued: Ghost<Seq<u64>>,
}

impl IdAllocator {
    /// The identifiers handed out so far, oldest first.
    pub closed spec fn view(&self) -> Seq<u64> {
        self.issued@
    }

    /// The identifier the next call to `allocate` will return.
    pub closed spec fn next_id(&self) -> u64 {
        self.next
    }

    /// Invariant: identifiers start at 1, and the issued record is strictly
    /// increasing and bounded by `next`.
    pub closed spec fn wf(&self) -> bool {
        &&& self.next >= 1
        &&& forall|i: int| 0 <= i < self.issued@.len() ==> 1 <= #[trigger] self.issued@[i] < self.next
        &&& forall|i: int, j: int|
            #![trigger self.issued@[i], self.issued@[j]]
            0 <= i < j < self.issued@.len() ==> self.issued@[i] < self.issued@[j]
    }

    /// A fresh allocator: nothing issued yet, first identifier will be 1.
    pub fn new() -> (a: Self)
        ensures
            a.wf(),
            a@ == Seq::<u64>::empty(),
            a.next_id() == 1,
    {
        IdAllocator { next: 1, issued: Ghost(Seq::empty()) }
    }

    /// Whether another identifier can still be handed out.
    pub fn can_allocate(&self) -> (b: bool)
        ensures
            b == (self.next_id() < u64::MAX),
    {
        self.next < u64::MAX
    }

    /// Hands out the next identifier, never one issued before.
    pub fn allocate(&mut self) -> (id: u64)
        requires
            old(self).wf(),
            old(self).next_id() < u64::MAX,
        ensures
            final(self).wf(),
            id == old(self).next_id(),
            id >= 1,
            final(self).next_id() == old(self).next_id() + 1,
            final(self)@ == old(self)@.push(id),
            forall|i: int| 0 <= i < old(self)@.len() ==> #[trigger] old(self)@[i] != id,
    {
        let id = self.next;
        self.next = self.next + 1;
        proof {
            self.issued@ = self.issued@.push(id);
        }
        id
    }
}

/// Uniqueness: however many identifiers a well-formed allocator has handed
/// out, they are pairwise distinct.
pub proof fn lemma_ids_pairwise_distinct(a: &IdAllocator)
    requires
        a.wf(),
    ensures
        forall|i: int, j: int| #![trigger a@[i], a@[j]] 0 <= i < j < a@.len() ==> a@[i] != a@[j],
{
}

} // verus!
