use vstd::prelude::*;

use crate::error::SpotEventError;
use crate::principal::Principal;

verus! {

/// The credential one principal received, and when.
#[derive(Debug, Clone, Copy, PartialEq, Eq, Structural)]
pub struct ClaimRecord {
    pub principal: Principal,
    pub issued_at: u64,
}

/// Whether `p` has a record in `records`.
pub open spec fn claimed_in(records: Seq<ClaimRecord>, p: Principal) -> bool {
    exists|i: int| 0 <= i < records.len() && #[trigger] records[i].principal == p
}

/// No principal has two records.
pub open spec fn unique_principals(records: Seq<ClaimRecord>) -> bool {
    forall|i: int, j: int|
        0 <= i < records.len() && 0 <= j < records.len() && i != j
            ==> #[trigger] records[i].principal != #[trigger] records[j].principal
}

/// Every credential issued, in the order of issuance.
pub struct ClaimLedger {
    records: Vec<ClaimRecord>,
}

impl View for ClaimLedger {
    type V = Seq<ClaimRecord>;

    closed spec fn view(&self) -> Seq<ClaimRecord> {
        self.records@
    }
}

impl ClaimLedger {
    pub open spec fn wf(&self) -> bool {
        unique_principals(self@)
    }

    pub fn new() -> (r: ClaimLedger)
        ensures
            r.wf(),
            r@ == Seq::<ClaimRecord>::empty(),
    {
        ClaimLedger { records: Vec::new() }
    }

    pub fn len(&self) -> (n: usize)
        ensures
            n == self@.len(),
    {
        self.records.len()
    }

    /// Every record, in the order of issuance.
    pub fn to_vec(&self) -> (r: Vec<ClaimRecord>)
        ensures
            r@ == self@,
    {
        let mut r: Vec<ClaimRecord> = Vec::new();
        let mut i: usize = 0;
        while i < self.records.len()
            invariant
                0 <= i <= self.records@.len(),
                r@ == self.records@.subrange(0, i as int),
            decreases self.records@.len() - i,
        {
            r.push(self.records[i]);
            i = i + 1;
            assert(r@ =~= self.records@.subrange(0, i as int));
        }
        assert(r@ =~= self.records@);
        r
    }

    /// Whether `p` has already claimed.
    pub fn has_claimed(&self, p: Principal) -> (b: bool)
        ensures
            b == claimed_in(self@, p),
    {
        let mut i: usize = 0;
        while i < self.records.len()
            invariant
                0 <= i <= self@.len(),
                forall|j: int| 0 <= j < i ==> self@[j].principal != p,
            decreases self@.len() - i,
        {
            if self.records[i].principal == p {
                return true;
            }
            i = i + 1;
        }
        false
    }

    /// The time at which `p` claimed, if it did.
    pub fn issued_at(&self, p: Principal) -> (r: Option<u64>)
        requires
            self.wf(),
        ensures
            r.is_none() == !claimed_in(self@, p),
            forall|i: int| 0 <= i < self@.len() && self@[i].principal == p
                ==> r == Some(self@[i].issued_at),
    {
        let mut i: usize = 0;
        while i < self.records.len()
            invariant
                self.wf(),
                0 <= i <= self@.len(),
                forall|j: int| 0 <= j < i ==> self@[j].principal != p,
            decreases self@.len() - i,
        {
            if self.records[i].principal == p {
                assert forall|k: int| 0 <= k < self@.len() && self@[k].principal == p implies k
                    == i by {
                    if k != i as int {
                        assert(self@[k].principal != self@[i as int].principal);
                    }
                }
                return Some(self.records[i].issued_at);
            }
            i = i + 1;
        }
        None
    }

    /// Adds a record for `p` at `now`, unless `p` has one already; an existing
    /// record is never overwritten.
    pub fn record(&mut self, p: Principal, now: u64) -> (r: Result<(), SpotEventError>)
        requires
            old(self).wf(),
        ensures
            final(self).wf(),
            !claimed_in(old(self)@, p) ==> r == Ok::<(), SpotEventError>(())
                && final(self)@ == old(self)@.push(ClaimRecord { principal: p, issued_at: now }),
            claimed_in(old(self)@, p) ==> r == Err::<(), SpotEventError>(SpotEventError::AlreadyMinted)
                && final(self)@ == old(self)@,
    {
        if self.has_claimed(p) {
            Err(SpotEventError::AlreadyMinted)
        } else {
            self.records.push(ClaimRecord { principal: p, issued_at: now });
            assert(unique_principals(self@)) by {
                assert forall|i: int, j: int|
                    0 <= i < self@.len() && 0 <= j < self@.len() && i != j
                        implies #[trigger] self@[i].principal != #[trigger] self@[j].principal by {
                    if i == self@.len() - 1 {
                        assert(old(self)@[j].principal != p);
                    } else if j == self@.len() - 1 {
                        assert(old(self)@[i].principal != p);
                    } else {
                        assert(old(self)@[i] == self@[i] && old(self)@[j] == self@[j]);
                    }
                }
            }
            Ok(())
        }
    }
}

} // verus!
