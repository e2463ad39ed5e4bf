use vstd::prelude::*;

use crate::capacity::Capacity;
use crate::error::SpotEventError;
use crate::ledger::{claimed_in, unique_principals, ClaimLedger, ClaimRecord};
use crate::principal::Principal;
use crate::roles::{Grant, Role, RoleRegistry};
use crate::window::ClaimWindow;

verus! {

/// What one event instance holds, seen as mathematics.
pub struct EventState {
    pub roles: Set<Grant>,
    pub window: Option<ClaimWindow>,
    pub capacity: Capacity,
    pub claims: Seq<ClaimRecord>,
}

impl EventState {
    /// Capacity bounds hold, the window is ordered, each principal has at most
    /// one record, and one record stands for each credential issued.
    pub open spec fn inv(self) -> bool {
        &&& self.capacity.wf()
        &&& (self.window matches Some(w) ==> w.wf())
        &&& unique_principals(self.claims)
        &&& self.claims.len() == self.capacity.issued
    }
}

/// One operation on an event instance, with the caller that invoked it.
#[derive(Debug, Clone, Copy, PartialEq, Eq, Structural)]
pub enum Command {
    Claim { caller: Principal, now: u64 },
    SetWindow { caller: Principal, start: u64, end: u64 },
    SetMax { caller: Principal, new_max: u32 },
    GrantRole { caller: Principal, target: Principal, role: Role },
    RevokeRole { caller: Principal, target: Principal, role: Role },
}

/// Whether `p` may change the instance's configuration and roles. Holding the
/// admin role alone decides: the creator is admin through the grant made at
/// creation, and loses that power if the grant is revoked.
pub open spec fn is_admin(s: EventState, p: Principal) -> bool {
    s.roles.contains(Grant { holder: p, role: Role::Admin })
}

/// The answer to a claim by `caller` at `now`: window first, then the
/// duplicate check, then capacity.
pub open spec fn claim_outcome(s: EventState, caller: Principal, now: u64) -> Result<(), SpotEventError> {
    match s.window {
        None => Err(SpotEventError::ClaimPeriodNotStarted),
        Some(w) => if now < w.start {
            Err(SpotEventError::ClaimPeriodNotStarted)
        } else if now > w.end {
            Err(SpotEventError::ClaimPeriodEnded)
        } else if claimed_in(s.claims, caller) {
            Err(SpotEventError::AlreadyMinted)
        } else if s.capacity.issued >= s.capacity.max {
            Err(SpotEventError::LimitExceeded)
        } else {
            Ok(())
        },
    }
}

/// The answer to command `c` in state `s`.
pub open spec fn outcome(s: EventState, c: Command) -> Result<(), SpotEventError> {
    match c {
        Command::Claim { caller, now } => claim_outcome(s, caller, now),
        Command::SetWindow { caller, start, end } => if !is_admin(s, caller) {
            Err(SpotEventError::Unauthorized)
        } else if start > end {
            Err(SpotEventError::InvalidParameters)
        } else {
            Ok(())
        },
        Command::SetMax { caller, new_max } => if !is_admin(s, caller) {
            Err(SpotEventError::Unauthorized)
        } else if new_max == 0 || new_max < s.capacity.issued {
            Err(SpotEventError::InvalidParameters)
        } else {
            Ok(())
        },
        Command::GrantRole { caller, .. } => if !is_admin(s, caller) {
            Err(SpotEventError::Unauthorized)
        } else {
            Ok(())
        },
        Command::RevokeRole { caller, target, role } => if !is_admin(s, caller) {
            Err(SpotEventError::Unauthorized)
        } else if !s.roles.contains(Grant { holder: target, role }) {
            Err(SpotEventError::RoleNotFound)
        } else {
            Ok(())
        },
    }
}

/// What command `c` does to `s` when it is accepted.
pub open spec fn effect(s: EventState, c: Command) -> EventState {
    match c {
        Command::Claim { caller, now } => EventState {
            capacity: Capacity { max: s.capacity.max, issued: (s.capacity.issued + 1) as u32 },
            claims: s.claims.push(ClaimRecord { principal: caller, issued_at: now }),
            ..s
        },
        Command::SetWindow { start, end, .. } => EventState {
            window: Some(ClaimWindow { start, end }),
            ..s
        },
        Command::SetMax { new_max, .. } => EventState {
            capacity: Capacity { max: new_max, issued: s.capacity.issued },
            ..s
        },
        Command::GrantRole { target, role, .. } => EventState {
            roles: s.roles.insert(Grant { holder: target, role }),
            ..s
        },
        Command::RevokeRole { target, role, .. } => EventState {
            roles: s.roles.remove(Grant { holder: target, role }),
            ..s
        },
    }
}

/// The state after command `c`: all of its effect when accepted, none when
/// rejected.
pub open spec fn after(s: EventState, c: Command) -> EventState {
    if outcome(s, c) is Ok {
        effect(s, c)
    } else {
        s
    }
}

/// Whether stored parts can make up an instance: an ordered window if any, a
/// positive bound no smaller than the number of records, and one record per
/// principal at most.
pub open spec fn restorable(window: Option<ClaimWindow>, max: u32, records: Seq<ClaimRecord>) -> bool {
    &&& (window matches Some(w) ==> w.wf())
    &&& 0 < max
    &&& records.len() <= max
    &&& unique_principals(records)
}

/// The state that stored parts make up.
pub open spec fn restored(
    grants: Seq<Grant>,
    window: Option<ClaimWindow>,
    max: u32,
    records: Seq<ClaimRecord>,
) -> EventState {
    EventState {
        roles: grants.to_set(),
        window,
        capacity: Capacity { max, issued: records.len() as u32 },
        claims: records,
    }
}

/// One event instance: its roles, claim window, capacity and claim ledger.
pub struct SpotEvent {
    roles: RoleRegistry,
    window: Option<ClaimWindow>,
    capacity: Capacity,
    ledger: ClaimLedger,
}

impl View for SpotEvent {
    type V = EventState;

    closed spec fn view(&self) -> EventState {
        EventState {
            roles: self.roles@,
            window: self.window,
            capacity: self.capacity,
            claims: self.ledger@,
        }
    }
}

impl SpotEvent {
    pub closed spec fn wf(&self) -> bool {
        self@.inv() && self.roles.wf()
    }

    /// A well-formed instance's state meets the invariant that the laws over
    /// states assume.
    pub proof fn lemma_state_inv(&self)
        requires
            self.wf(),
        ensures
            self@.inv(),
    {
    }

    /// An instance created by `creator` with room for `max_nfts` credentials.
    /// The creator is its only admin, no credential is issued, and the window
    /// stays unset, so that claims are refused until an admin sets it.
    pub fn new(creator: Principal, max_nfts: u32) -> (r: Result<SpotEvent, SpotEventError>)
        ensures
            max_nfts > 0 <==> (r is Ok),
            max_nfts == 0 ==> r == Err::<SpotEvent, SpotEventError>(SpotEventError::InvalidParameters),
            r matches Ok(ev) ==> {
                &&& ev.wf()
                &&& ev@.roles == set![Grant { holder: creator, role: Role::Admin }]
                &&& ev@.window is None
                &&& ev@.capacity == Capacity { max: max_nfts, issued: 0 }
                &&& ev@.claims == Seq::<ClaimRecord>::empty()
            },
    {
        let capacity = match Capacity::new(max_nfts) {
            Ok(c) => c,
            Err(e) => {
                return Err(e);
            },
        };
        let mut roles = RoleRegistry::new();
        roles.grant(creator, Role::Admin);
        let ev = SpotEvent { roles, window: None, capacity, ledger: ClaimLedger::new() };
        assert(ev@.roles =~= set![Grant { holder: creator, role: Role::Admin }]);
        Ok(ev)
    }

    /// Rebuilds an instance from its stored parts: the grants, the window, the
    /// bound, and the claim records in the order of issuance.
    pub fn restore(
        grants: &Vec<Grant>,
        window: Option<ClaimWindow>,
        max: u32,
        records: &Vec<ClaimRecord>,
    ) -> (r: Result<SpotEvent, SpotEventError>)
        ensures
            restorable(window, max, records@) <==> (r is Ok),
            !restorable(window, max, records@) ==> r == Err::<SpotEvent, SpotEventError>(
                SpotEventError::InvalidParameters,
            ),
            r matches Ok(ev) ==> ev.wf() && ev@ == restored(grants@, window, max, records@),
    {
        if let Some(w) = window {
            if w.start > w.end {
                return Err(SpotEventError::InvalidParameters);
            }
        }
        if max == 0 || records.len() > max as usize {
            return Err(SpotEventError::InvalidParameters);
        }
        let mut roles = RoleRegistry::new();
        let mut i: usize = 0;
        while i < grants.len()
            invariant
                0 <= i <= grants@.len(),
                roles.wf(),
                roles@ == grants@.subrange(0, i as int).to_set(),
            decreases grants@.len() - i,
        {
            let ghost before = roles@;
            roles.grant(grants[i].holder, grants[i].role);
            proof {
                let prefix = grants@.subrange(0, i + 1);
                assert(prefix =~= grants@.subrange(0, i as int).push(grants@[i as int]));
                assert forall|g: Grant| prefix.contains(g) <==> (grants@.subrange(0, i as int).contains(g)
                    || g == grants@[i as int]) by {
                    if prefix.contains(g) {
                        let j = choose|j: int| 0 <= j < prefix.len() && prefix[j] == g;
                        if j < i {
                            assert(grants@.subrange(0, i as int)[j] == g);
                        }
                    }
                    if grants@.subrange(0, i as int).contains(g) {
                        let j = choose|j: int| 0 <= j < i && grants@.subrange(0, i as int)[j] == g;
                        assert(prefix[j] == g);
                    }
                    if g == grants@[i as int] {
                        assert(prefix[i as int] == g);
                    }
                }
                assert(roles@ =~= prefix.to_set());
            }
            i = i + 1;
        }
        assert(grants@.subrange(0, grants@.len() as int) =~= grants@);
        let mut ledger = ClaimLedger::new();
        let mut k: usize = 0;
        while k < records.len()
            invariant
                0 <= k <= records@.len(),
                records@.len() <= max,
                ledger.wf(),
                ledger@ == records@.subrange(0, k as int),
            decreases records@.len() - k,
        {
            let rec = records[k];
            match ledger.record(rec.principal, rec.issued_at) {
                Ok(()) => {},
                Err(_) => {
                    proof {
                        let j = choose|j: int| 0 <= j < ledger@.len() && #[trigger] ledger@[j].principal == rec.principal;
                        assert(records@[j].principal == records@[k as int].principal);
                    }
                    return Err(SpotEventError::InvalidParameters);
                },
            }
            k = k + 1;
            assert(ledger@ =~= records@.subrange(0, k as int));
        }
        assert(ledger@ =~= records@);
        let ev = SpotEvent {
            roles,
            window,
            capacity: Capacity { max, issued: records.len() as u32 },
            ledger,
        };
        Ok(ev)
    }

    /// Every grant of a role, each once.
    pub fn grants(&self) -> (r: Vec<Grant>)
        ensures
            r@.to_set() == self@.roles,
    {
        self.roles.to_vec()
    }

    /// Every claim record, in the order of issuance.
    pub fn records(&self) -> (r: Vec<ClaimRecord>)
        ensures
            r@ == self@.claims,
    {
        self.ledger.to_vec()
    }

    /// Issues `caller` its credential at time `now`, if the window is open at
    /// `now`, `caller` has none yet, and capacity is left. The caller must be
    /// the authenticated signer of the request.
    pub fn claim(&mut self, caller: Principal, now: u64) -> (r: Result<(), SpotEventError>)
        requires
            old(self).wf(),
        ensures
            final(self).wf(),
            r == outcome(old(self)@, Command::Claim { caller, now }),
            final(self)@ == after(old(self)@, Command::Claim { caller, now }),
    {
        match self.window {
            None => {
                return Err(SpotEventError::ClaimPeriodNotStarted);
            },
            Some(w) => {
                if !w.is_open(now) {
                    if now < w.start {
                        return Err(SpotEventError::ClaimPeriodNotStarted);
                    } else {
                        return Err(SpotEventError::ClaimPeriodEnded);
                    }
                }
            },
        }
        if self.ledger.has_claimed(caller) {
            return Err(SpotEventError::AlreadyMinted);
        }
        match self.capacity.try_reserve() {
            Ok(()) => {},
            Err(e) => {
                return Err(e);
            },
        }
        let recorded = self.ledger.record(caller, now);
        assert(recorded is Ok);
        assert(self@ == effect(old(self)@, Command::Claim { caller, now }));
        Ok(())
    }

    /// Sets the claim window to `[start, end]`; admins only.
    pub fn set_window(&mut self, caller: Principal, start: u64, end: u64) -> (r: Result<(), SpotEventError>)
        requires
            old(self).wf(),
        ensures
            final(self).wf(),
            r == outcome(old(self)@, Command::SetWindow { caller, start, end }),
            final(self)@ == after(old(self)@, Command::SetWindow { caller, start, end }),
    {
        if !self.roles.has_role(caller, Role::Admin) {
            return Err(SpotEventError::Unauthorized);
        }
        match ClaimWindow::new(start, end) {
            Ok(w) => {
                self.window = Some(w);
                Ok(())
            },
            Err(e) => Err(e),
        }
    }

    /// Moves the capacity bound to `new_max`; admins only. The bound may not be
    /// zero nor fall below what was issued.
    pub fn set_max(&mut self, caller: Principal, new_max: u32) -> (r: Result<(), SpotEventError>)
        requires
            old(self).wf(),
        ensures
            final(self).wf(),
            r == outcome(old(self)@, Command::SetMax { caller, new_max }),
            final(self)@ == after(old(self)@, Command::SetMax { caller, new_max }),
    {
        if !self.roles.has_role(caller, Role::Admin) {
            return Err(SpotEventError::Unauthorized);
        }
        self.capacity.set_max(new_max)
    }

    /// Gives `target` the role `role`; only holders of the admin role may.
    /// Granting a role already held succeeds and changes nothing.
    pub fn grant_role(&mut self, caller: Principal, target: Principal, role: Role) -> (r: Result<(), SpotEventError>)
        requires
            old(self).wf(),
        ensures
            final(self).wf(),
            r == outcome(old(self)@, Command::GrantRole { caller, target, role }),
            final(self)@ == after(old(self)@, Command::GrantRole { caller, target, role }),
    {
        if !self.roles.has_role(caller, Role::Admin) {
            return Err(SpotEventError::Unauthorized);
        }
        self.roles.grant(target, role);
        Ok(())
    }

    /// Takes `role` from `target`; only holders of the admin role may, and
    /// only a role that `target` holds.
    pub fn revoke_role(&mut self, caller: Principal, target: Principal, role: Role) -> (r: Result<(), SpotEventError>)
        requires
            old(self).wf(),
        ensures
            final(self).wf(),
            r == outcome(old(self)@, Command::RevokeRole { caller, target, role }),
            final(self)@ == after(old(self)@, Command::RevokeRole { caller, target, role }),
    {
        if !self.roles.has_role(caller, Role::Admin) {
            return Err(SpotEventError::Unauthorized);
        }
        if self.roles.revoke(target, role) {
            Ok(())
        } else {
            assert(self@.roles =~= old(self)@.roles);
            Err(SpotEventError::RoleNotFound)
        }
    }

    /// Whether `p` has received its credential.
    pub fn has_claimed(&self, p: Principal) -> (b: bool)
        ensures
            b == claimed_in(self@.claims, p),
    {
        self.ledger.has_claimed(p)
    }

    /// When `p` received its credential, if it did.
    pub fn claimed_at(&self, p: Principal) -> (r: Option<u64>)
        requires
            self.wf(),
        ensures
            r.is_none() == !claimed_in(self@.claims, p),
            forall|i: int| 0 <= i < self@.claims.len() && self@.claims[i].principal == p
                ==> r == Some(self@.claims[i].issued_at),
    {
        self.ledger.issued_at(p)
    }

    /// Whether `p` holds `role`.
    pub fn has_role(&self, p: Principal, role: Role) -> (b: bool)
        ensures
            b == self@.roles.contains(Grant { holder: p, role }),
    {
        self.roles.has_role(p, role)
    }

    pub fn issued(&self) -> (n: u32)
        ensures
            n == self@.capacity.issued,
    {
        self.capacity.issued
    }

    pub fn max(&self) -> (n: u32)
        ensures
            n == self@.capacity.max,
    {
        self.capacity.max
    }

    pub fn window(&self) -> (w: Option<ClaimWindow>)
        ensures
            w == self@.window,
    {
        self.window
    }
}

} // verus!
