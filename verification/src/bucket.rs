//! The milk bucket: a saturating counter in [0, 5] that gates withdrawals.

use vstd::prelude::*;

verus! {

/// A capacity-bounded resource pool. Withdrawals take one unit while any is
/// left; a periodic refill puts one unit back until the bucket is full again.
#[derive(Clone, Debug)]
pub struct Bucket {
    capacity: u8,
}

/// One withdraw step on the abstract capacity: take one unit if any is left.
pub open spec fn spec_withdraw(c: nat) -> nat {
    if c > 0 {
        (c - 1) as nat
    } else {
        0
    }
}

/// One refill step on the abstract capacity: add one unit unless full.
pub open spec fn spec_refill(c: nat) -> nat {
    if c < 5 {
        c + 1
    } else {
        c
    }
}

/// Capacity after `n` withdraw steps starting from `c`.
pub open spec fn withdrawn(c: nat, n: nat) -> nat
    decreases n,
{
    if n == 0 {
        c
    } else {
        spec_withdraw(withdrawn(c, (n - 1) as nat))
    }
}

/// Capacity after `n` refill steps starting from `c`.
pub open spec fn refilled(c: nat, n: nat) -> nat
    decreases n,
{
    if n == 0 {
        c
    } else {
        spec_refill(refilled(c, (n - 1) as nat))
    }
}

impl Bucket {
    /// The abstract capacity of the bucket.
    pub closed spec fn view(&self) -> nat {
        self.capacity as nat
    }

    /// Well-formedness: the capacity never leaves [0, 5].
    pub closed spec fn wf(&self) -> bool {
        self.capacity <= 5
    }

    /// A bucket starts out full.
    pub fn init() -> (b: Bucket)
        ensures
            b.wf(),
            b@ == 5,
    {
        Bucket { capacity: 5 }
    }

    /// Take one unit of milk if any is left; report failure otherwise.
    pub fn withdraw(&mut self) -> (r: Option<()>)
        requires
            old(self).wf(),
        ensures
            final(self).wf(),
            final(self)@ == spec_withdraw(old(self)@),
            r is Some <==> old(self)@ > 0,
    {
        if self.capacity > 0 {
            self.capacity = self.capacity - 1;
            Some(())
        } else {
            None
        }
    }

    /// Put one unit back, unless the bucket is already full.
    pub fn refill(&mut self)
        requires
            old(self).wf(),
        ensures
            final(self).wf(),
            final(self)@ == spec_refill(old(self)@),
    {
        if self.capacity < 5 {
            self.capacity = self.capacity + 1;
        }
    }

    /// Reset the capacity to full, whatever it was before.
    pub fn force_refill(&mut self)
        ensures
            final(self).wf(),
            final(self)@ == 5,
    {
        self.capacity = 5;
    }
}

/// After `n` withdrawals from a full bucket the capacity is `5 - n`, bottoming
/// out at zero.
pub proof fn lemma_withdrawn_from_full(n: nat)
    ensures
        withdrawn(5, n) == if n <= 5 {
            (5 - n) as nat
        } else {
            0nat
        },
    decreases n,
{
    if n > 0 {
        lemma_withdrawn_from_full((n - 1) as nat);
    }
}

/// From a full bucket, each of the first five withdrawals finds milk, the
/// sixth finds none, and the capacity never leaves [0, 5].
pub proof fn lemma_bucket_exhaustion(n: nat)
    ensures
        n < 5 ==> withdrawn(5, n) > 0,
        withdrawn(5, 5) == 0,
        withdrawn(5, n) <= 5,
{
    lemma_withdrawn_from_full(n);
    lemma_withdrawn_from_full(5);
}

/// Refilling is saturating: however often the bucket is refilled, the
/// capacity never exceeds 5, and a full bucket stays exactly full.
pub proof fn lemma_refill_saturating(c: nat, n: nat)
    requires
        c <= 5,
    ensures
        refilled(c, n) <= 5,
        c == 5 ==> refilled(c, n) == 5,
    decreases n,
{
    if n > 0 {
        lemma_refill_saturating(c, (n - 1) as nat);
    }
}

} // verus!
