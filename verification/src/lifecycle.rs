//! Reference-counted subsystem lifecycle.
//!
//! The native toolkit counts `init`/`shutdown` calls per subsystem: `init`
//! raises the count, `shutdown` lowers it, and the subsystem is torn down
//! only when the count returns to zero.  [`Lifecycle`] keeps that count as
//! an owned value, and the lemmas below prove the balance law: any number
//! of `init`/`shutdown` pairs leaves the count exactly where one pair
//! leaves it, namely where it began.

use vstd::prelude::*;

verus! {

/// The count after one more `init`.
pub open spec fn spec_init(n: nat) -> nat {
    n + 1
}

/// The count after one more `shutdown`; a shutdown without a matching
/// init is absorbed at zero, as the toolkit documents.
pub open spec fn spec_shutdown(n: nat) -> nat {
    if n > 0 {
        (n - 1) as nat
    } else {
        0
    }
}

/// The count after one `init`/`shutdown` pair.
pub open spec fn spec_pair(n: nat) -> nat {
    spec_shutdown(spec_init(n))
}

/// The count after `k` `init`/`shutdown` pairs in a row.
pub open spec fn spec_pairs(n: nat, k: nat) -> nat
    decreases k,
{
    if k == 0 {
        n
    } else {
        spec_pairs(spec_pair(n), (k - 1) as nat)
    }
}

/// One `init`/`shutdown` pair leaves the count unchanged.
pub proof fn lemma_pair_identity(n: nat)
    ensures
        spec_pair(n) == n,
{
}

/// Repeated `init`/`shutdown` pairs leave the count in the same state as
/// a single pair, and that state is the starting one.
pub proof fn lemma_repeated_pairs(n: nat, k: nat)
    requires
        k >= 1,
    ensures
        spec_pairs(n, k) == spec_pairs(n, 1),
        spec_pairs(n, k) == n,
    decreases k,
{
    assert(spec_pairs(spec_pair(n), 0) == spec_pair(n));
    assert(spec_pairs(n, 1) == n);
    if k > 1 {
        lemma_repeated_pairs(n, (k - 1) as nat);
    }
}

/// The reference count of one subsystem.
pub struct Lifecycle {
    count: u32,
}

impl Lifecycle {
    /// How many `init` calls are outstanding.
    pub closed spec fn count(&self) -> nat {
        self.count as nat
    }

    /// A subsystem that nothing has initialized yet.
    pub fn new() -> (l: Lifecycle)
        ensures
            l.count() == 0,
    {
        Lifecycle { count: 0 }
    }

    /// Take one reference on the subsystem; returns the new count, which
    /// is always positive.
    pub fn init(&mut self) -> (r: u32)
        requires
            old(self).count() < u32::MAX,
        ensures
            final(self).count() == spec_init(old(self).count()),
            r == final(self).count(),
            r >= 1,
    {
        self.count = self.count + 1;
        self.count
    }

    /// Release one reference on the subsystem; returns the new count.  A
    /// release with no reference outstanding is absorbed and the count
    /// stays zero.
    pub fn shutdown(&mut self) -> (r: u32)
        ensures
            final(self).count() == spec_shutdown(old(self).count()),
            r == final(self).count(),
    {
        if self.count > 0 {
            self.count = self.count - 1;
        }
        self.count
    }

    /// Whether at least one reference is outstanding.
    pub fn is_initialized(&self) -> (b: bool)
        ensures
            b == (self.count() > 0),
    {
        self.count > 0
    }
}

} // verus!
