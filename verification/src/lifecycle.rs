//! The destruction rule for shared resource wrappers.
//!
//! A pool or semaphore is shared by reference counting: every clone of the
//! wrapper is one more owner, and the native destroy call must happen
//! exactly once, when the last owner is dropped.  `OwnerCount` is that rule
//! as a verified state machine: the embedding program keeps one count per
//! shared native resource, acquires on clone, releases on drop, and
//! performs the native destroy call exactly when a release signals it.

use vstd::prelude::*;

verus! {

/// Number of live owners of one shared native resource.
pub struct OwnerCount {
    count: u64,
}

impl OwnerCount {
    /// The number of live owners.
    pub closed spec fn spec_count(&self) -> u64 {
        self.count
    }

    /// A freshly created resource has exactly one owner.
    pub fn new() -> (c: OwnerCount)
        ensures
            c.spec_count() == 1,
    {
        OwnerCount { count: 1 }
    }

    /// Records one more owner: a clone of the resource's wrapper.
    pub fn acquire(&mut self)
        requires
            1 <= old(self).spec_count() < u64::MAX,
        ensures
            final(self).spec_count() == old(self).spec_count() + 1,
    {
        self.count = self.count + 1;
    }

    /// Records that one owner was dropped.  Returns whether the native
    /// resource must now be destroyed: exactly when the dropped owner was
    /// the last one.
    pub fn release(&mut self) -> (destroy: bool)
        requires
            old(self).spec_count() >= 1,
        ensures
            final(self).spec_count() == old(self).spec_count() - 1,
            destroy <==> final(self).spec_count() == 0,
    {
        self.count = self.count - 1;
        self.count == 0
    }
}

/// Owners left after `k` of the `n` original owners have been dropped.
pub open spec fn count_after_drops(n: nat, k: nat) -> int {
    n - k
}

/// The `k`-th drop signals destruction exactly when it leaves no owner:
/// this is [`OwnerCount::release`]'s answer on the count the first `k - 1`
/// drops leave behind.
pub open spec fn kth_drop_destroys(n: nat, k: nat) -> bool {
    count_after_drops(n, k) == 0
}

/// How many of the first `k` drops of a resource with `n` owners signal
/// destruction.
pub open spec fn destroy_signals_upto(n: nat, k: nat) -> nat
    decreases k,
{
    if k == 0 {
        0
    } else {
        destroy_signals_upto(n, (k - 1) as nat) + if kth_drop_destroys(n, k) {
            1nat
        } else {
            0nat
        }
    }
}

/// Dropping any owner of a resource but the last never signals the native
/// destroy call, and dropping the last owner signals it exactly once: among
/// the first `k` of `n` drops there is no signal while owners remain, and
/// exactly one once all `n` owners are dropped.
pub proof fn lemma_destroy_exactly_once(n: nat, k: nat)
    requires
        1 <= n,
        k <= n,
    ensures
        kth_drop_destroys(n, k) <==> k == n,
        destroy_signals_upto(n, k) == if k == n {
            1nat
        } else {
            0nat
        },
    decreases k,
{
    if k > 0 {
        lemma_destroy_exactly_once(n, (k - 1) as nat);
    }
}

} // verus!
