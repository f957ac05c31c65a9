//! The gas counter of one call frame: a limit, the gas still remaining, and
//! the refund accumulated during execution.

use vstd::prelude::*;

verus! {

/// Gas accounting state for one frame.
#[derive(Clone, Copy, Debug, PartialEq, Eq, Structural)]
pub struct Gas {
    /// The gas limit of the frame.
    pub limit: u64,
    /// Gas still available.
    pub remaining: u64,
    /// Gas refunded during execution; may go negative transiently.
    pub refunded: i64,
}

impl Gas {
    /// Well-formedness: no more gas remains than the limit allows.
    pub open spec fn wf(self) -> bool {
        self.remaining <= self.limit
    }

    /// Gas spent so far.
    pub open spec fn spec_spent(self) -> int {
        self.limit - self.remaining
    }

    /// A fresh counter with everything still available.
    pub fn new(limit: u64) -> (r: Gas)
        ensures
            r.wf(),
            r.limit == limit,
            r.remaining == limit,
            r.refunded == 0,
    {
        Gas { limit, remaining: limit, refunded: 0 }
    }

    /// A counter with all gas already spent.
    pub fn new_spent(limit: u64) -> (r: Gas)
        ensures
            r.wf(),
            r.limit == limit,
            r.remaining == 0,
            r.refunded == 0,
    {
        Gas { limit, remaining: 0, refunded: 0 }
    }

    /// Gas spent so far.
    pub fn spent(&self) -> (r: u64)
        requires
            self.wf(),
        ensures
            r == self.spec_spent(),
    {
        self.limit - self.remaining
    }

    /// Charges `cost`; fails (charging nothing) when not enough gas remains.
    pub fn record_cost(&mut self, cost: u64) -> (ok: bool)
        ensures
            ok == (cost <= old(self).remaining),
            ok ==> *final(self) == (Gas {
                remaining: (old(self).remaining - cost) as u64,
                ..*old(self)
            }),
            !ok ==> *final(self) == *old(self),
            old(self).wf() ==> final(self).wf(),
    {
        if cost <= self.remaining {
            self.remaining = self.remaining - cost;
            true
        } else {
            false
        }
    }

    /// Returns unused gas from a finished inner frame.
    pub fn erase_cost(&mut self, returned: u64)
        requires
            old(self).remaining + returned <= old(self).limit,
        ensures
            *final(self) == (Gas { remaining: (old(self).remaining + returned) as u64, ..*old(self) }),
            old(self).wf() ==> final(self).wf(),
    {
        self.remaining = self.remaining + returned;
    }

    /// Records a (possibly negative) refund.
    pub fn record_refund(&mut self, refund: i64)
        requires
            i64::MIN <= old(self).refunded + refund <= i64::MAX,
        ensures
            *final(self) == (Gas { refunded: (old(self).refunded + refund) as i64, ..*old(self) }),
    {
        self.refunded = self.refunded + refund;
    }

    /// Final gas charged to the caller: spent gas minus the refund.
    pub fn used(&self) -> (r: u64)
        requires
            self.wf(),
            0 <= self.refunded,
        ensures
            r == if self.spec_spent() >= self.refunded {
                self.spec_spent() - self.refunded
            } else {
                0
            },
    {
        let spent = self.limit - self.remaining;
        if spent >= self.refunded as u64 {
            spent - self.refunded as u64
        } else {
            0
        }
    }
}

} // verus!
