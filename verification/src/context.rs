//! Process-wide shared state: the upload-identifier allocator.
//!
//! One `Context` exists per process. Every request that passes method
//! validation draws one identifier from it. Identifiers start at zero and
//! each allocation returns the next integer, so the full history of issued
//! identifiers is always `0, 1, 2, ...` in order: pairwise distinct and
//! strictly increasing.

use vstd::prelude::*;

verus! {

/// The identifier allocator shared by every request handler.
///
/// The ghost field `issued` records, in allocation order, every identifier
/// this context has ever handed out; contracts about uniqueness and
/// monotonicity are stated over it.
pub struct Context {
    next_id: u64,
    issued: Ghost<Seq<u64>>,
}

impl Context {
    /// The history of identifiers this context has issued, oldest first.
    pub closed spec fn issued(self) -> Seq<u64> {
        self.issued@
    }

    /// The allocator is well formed: the history is exactly `0, 1, ...,
    /// next_id - 1`, so the next allocation returns a fresh, larger value.
    pub closed spec fn wf(self) -> bool {
        &&& self.issued@.len() == self.next_id
        &&& forall|i: int| 0 <= i < self.issued@.len() ==> self.issued@[i] == i
    }

    /// A fresh allocator, as built once at process startup: nothing issued
    /// yet, so the first allocation returns 0.
    pub fn new() -> (r: Context)
        ensures
            r.wf(),
            r.issued() == Seq::<u64>::empty(),
    {
        Context { next_id: 0, issued: Ghost(Seq::empty()) }
    }

    /// Whether another identifier can still be allocated. False only once
    /// the counter has exhausted the machine word, which no real process
    /// reaches.
    pub fn can_allocate(&self) -> (r: bool)
        requires
            self.wf(),
        ensures
            r == (self.issued().len() < u64::MAX),
    {
        self.next_id < u64::MAX
    }

    /// Allocate the next identifier: returns the counter value and advances
    /// the counter by one. The returned identifier extends the history and
    /// is strictly greater than everything issued before it.
    pub fn allocate(&mut self) -> (id: u64)
        requires
            old(self).wf(),
            old(self).issued().len() < u64::MAX,
        ensures
            final(self).wf(),
            id == old(self).issued().len(),
            final(self).issued() == old(self).issued().push(id),
            forall|i: int| 0 <= i < old(self).issued().len() ==> old(self).issued()[i] < id,
    {
        let id = self.next_id;
        self.next_id = self.next_id + 1;
        self.issued = Ghost(self.issued@.push(id));
        id
    }
}

/// Uniqueness: no two allocations ever return the same identifier. Stated
/// over the full history of a well-formed allocator.
pub proof fn lemma_issued_unique(ctx: Context)
    requires
        ctx.wf(),
    ensures
        forall|i: int, j: int|
            0 <= i < ctx.issued().len() && 0 <= j < ctx.issued().len() && i != j
                ==> ctx.issued()[i] != ctx.issued()[j],
{
}

/// Monotonicity: if one allocation happens before another, the earlier one
/// returns the strictly smaller identifier. Stated over the history, whose
/// order is allocation order.
pub proof fn lemma_issued_monotonic(ctx: Context)
    requires
        ctx.wf(),
    ensures
        forall|i: int, j: int|
            0 <= i < j < ctx.issued().len() ==> ctx.issued()[i] < ctx.issued()[j],
{
}

} // verus!
