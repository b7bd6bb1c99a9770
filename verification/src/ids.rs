//! Identifiers for bodies and for bindings.

use vstd::prelude::*;

verus! {

/// Hands out identifiers in increasing order, starting from zero.
///
/// The counter wraps around after `usize::MAX`, so identifiers are distinct as
/// long as fewer than `usize::MAX + 1` of them have been issued.
pub struct IdAllocator {
    next: usize,
}

/// The identifier that is issued after `id`.
pub open spec fn successor(id: usize) -> usize {
    if id == usize::MAX {
        0
    } else {
        (id + 1) as usize
    }
}

impl IdAllocator {
    /// The identifier that the next call of `allocate` returns.
    pub closed spec fn next_id(&self) -> usize {
        self.next
    }

    pub fn new() -> (ids: Self)
        ensures
            ids.next_id() == 0,
    {
        IdAllocator { next: 0 }
    }

    /// Issues the next identifier.
    pub fn allocate(&mut self) -> (id: usize)
        ensures
            id == old(self).next_id(),
            final(self).next_id() == successor(id),
    {
        let id = self.next;
        if id == usize::MAX {
            self.next = 0;
        } else {
            self.next = id + 1;
        }
        id
    }
}

/// The identifier that is issued `gap` calls after the identifier `earlier`.
pub open spec fn issued_after(earlier: usize, gap: nat) -> usize
    decreases gap,
{
    if gap == 0 {
        earlier
    } else {
        successor(issued_after(earlier, (gap - 1) as nat))
    }
}

/// Identifiers increase for as long as the counter does not wrap: the
/// identifier issued `gap` calls after `earlier` is `earlier + gap`, if that
/// fits into a machine word. So no identifier is issued twice before the
/// counter wraps.
pub proof fn lemma_identifiers_increase(earlier: usize, gap: nat)
    requires
        earlier + gap <= usize::MAX,
    ensures
        issued_after(earlier, gap) == earlier + gap,
    decreases gap,
{
    if gap > 0 {
        lemma_identifiers_increase(earlier, (gap - 1) as nat);
    }
}

/// Identifiers issued fewer than `usize::MAX + 1` calls apart differ, whether
/// or not the counter wraps in between: the counter comes back to an
/// identifier only after it has gone through all of them.
pub proof fn lemma_identifiers_differ(earlier: usize, gap: nat, later_gap: nat)
    requires
        gap < later_gap <= usize::MAX,
    ensures
        issued_after(earlier, gap) != issued_after(earlier, later_gap),
{
    lemma_identifiers_wrap(earlier, gap);
    lemma_identifiers_wrap(earlier, later_gap);
}

/// The identifier issued `gap` calls after `earlier` is `earlier + gap`,
/// less `usize::MAX + 1` if that does not fit into a machine word.
proof fn lemma_identifiers_wrap(earlier: usize, gap: nat)
    requires
        gap <= usize::MAX,
    ensures
        issued_after(earlier, gap) == if earlier + gap <= usize::MAX {
            earlier + gap
        } else {
            earlier + gap - usize::MAX - 1
        },
    decreases gap,
{
    if gap > 0 {
        lemma_identifiers_wrap(earlier, (gap - 1) as nat);
    }
}

} // verus!
