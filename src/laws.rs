use vstd::prelude::*;

use crate::error::SpotEventError;
use crate::engine::{after, is_admin, outcome, Command, EventState};
use crate::ledger::{claimed_in, unique_principals, ClaimRecord};
use crate::principal::Principal;
use crate::window::ClaimWindow;

verus! {

/// The state after the commands `cs`, applied in order from `s`.
pub open spec fn run(s: EventState, cs: Seq<Command>) -> EventState
    decreases cs.len(),
{
    if cs.len() == 0 {
        s
    } else {
        run(after(s, cs[0]), cs.drop_first())
    }
}

/// Whether `c` is a claim made by `p`.
pub open spec fn is_claim_by(c: Command, p: Principal) -> bool {
    match c {
        Command::Claim { caller, .. } => caller == p,
        _ => false,
    }
}

/// How many of the commands `cs`, applied in order from `s`, are claims by `p`
/// that were accepted.
pub open spec fn accepted_claims(s: EventState, cs: Seq<Command>, p: Principal) -> nat
    decreases cs.len(),
{
    if cs.len() == 0 {
        0
    } else {
        let here: nat = if is_claim_by(cs[0], p) && outcome(s, cs[0]) is Ok {
            1
        } else {
            0
        };
        here + accepted_claims(after(s, cs[0]), cs.drop_first(), p)
    }
}

/// The principal that invoked `c`.
pub open spec fn caller_of(c: Command) -> Principal {
    match c {
        Command::Claim { caller, .. } => caller,
        Command::SetWindow { caller, .. } => caller,
        Command::SetMax { caller, .. } => caller,
        Command::GrantRole { caller, .. } => caller,
        Command::RevokeRole { caller, .. } => caller,
    }
}

pub open spec fn as_count(b: bool) -> nat {
    if b {
        1
    } else {
        0
    }
}

/// Every command keeps the state's invariant, never lowers the number of
/// credentials issued, and changes who has claimed only by adding the caller
/// of an accepted claim.
pub proof fn lemma_step(s: EventState, c: Command)
    requires
        s.inv(),
    ensures
        after(s, c).inv(),
        after(s, c).capacity.issued >= s.capacity.issued,
        forall|p: Principal|
            #[trigger] claimed_in(after(s, c).claims, p) == (claimed_in(s.claims, p) || (is_claim_by(c, p)
                && outcome(s, c) is Ok)),
{
    let t = after(s, c);
    match c {
        Command::Claim { caller, now } => {
            if outcome(s, c) is Ok {
                let rec = ClaimRecord { principal: caller, issued_at: now };
                assert(t.claims == s.claims.push(rec));
                assert(!claimed_in(s.claims, caller));
                assert(unique_principals(t.claims)) by {
                    assert forall|i: int, j: int|
                        0 <= i < t.claims.len() && 0 <= j < t.claims.len() && i != j
                            implies #[trigger] t.claims[i].principal != #[trigger] t.claims[j].principal by {
                        if i == s.claims.len() {
                            assert(s.claims[j].principal != caller);
                        } else if j == s.claims.len() {
                            assert(s.claims[i].principal != caller);
                        } else {
                            assert(s.claims[i] == t.claims[i] && s.claims[j] == t.claims[j]);
                        }
                    }
                }
                assert forall|p: Principal|
                    claimed_in(t.claims, p) == (claimed_in(s.claims, p) || p == caller) by {
                    if claimed_in(s.claims, p) {
                        let i = choose|i: int| 0 <= i < s.claims.len() && #[trigger] s.claims[i].principal == p;
                        assert(t.claims[i].principal == p);
                    }
                    if p == caller {
                        assert(t.claims[s.claims.len() as int].principal == p);
                    }
                    if claimed_in(t.claims, p) && p != caller {
                        let i = choose|i: int| 0 <= i < t.claims.len() && #[trigger] t.claims[i].principal == p;
                        assert(s.claims[i].principal == p);
                    }
                }
            }
        },
        _ => {},
    }
}

/// Over any sequence of commands, the invariant holds throughout, the number
/// of credentials issued never decreases (and, by the invariant, never passes
/// the bound), and a principal that has claimed stays claimed.
pub proof fn lemma_run(s: EventState, cs: Seq<Command>)
    requires
        s.inv(),
    ensures
        run(s, cs).inv(),
        run(s, cs).capacity.issued >= s.capacity.issued,
        run(s, cs).capacity.issued <= run(s, cs).capacity.max,
        forall|p: Principal| claimed_in(s.claims, p) ==> claimed_in(run(s, cs).claims, p),
    decreases cs.len(),
{
    if cs.len() > 0 {
        lemma_step(s, cs[0]);
        lemma_run(after(s, cs[0]), cs.drop_first());
        assert forall|p: Principal| claimed_in(s.claims, p) implies claimed_in(run(s, cs).claims, p) by {
            assert(claimed_in(after(s, cs[0]).claims, p));
        }
    }
}

/// Exactly-once issuance: over any sequence of commands, a principal that had
/// not claimed has claimed at the end exactly when one of its claims was
/// accepted, and never more than one is; a principal that had claimed has no
/// claim accepted and stays claimed.
pub proof fn lemma_exactly_once(s: EventState, cs: Seq<Command>, p: Principal)
    requires
        s.inv(),
    ensures
        accepted_claims(s, cs, p) + as_count(claimed_in(s.claims, p))
            == as_count(claimed_in(run(s, cs).claims, p)),
        accepted_claims(s, cs, p) <= 1,
    decreases cs.len(),
{
    if cs.len() > 0 {
        let c = cs[0];
        lemma_step(s, c);
        lemma_exactly_once(after(s, c), cs.drop_first(), p);
        if is_claim_by(c, p) && outcome(s, c) is Ok {
            assert(!claimed_in(s.claims, p));
        }
    }
}

/// Once as many credentials are issued as the bound allows, a claim by a
/// principal that has none fails with `LimitExceeded` and changes nothing,
/// however well placed in the window it is.
pub proof fn lemma_full_capacity_rejects(s: EventState, p: Principal, now: u64)
    requires
        s.inv(),
        s.capacity.issued == s.capacity.max,
        s.window matches Some(w) && w.start <= now <= w.end,
        !claimed_in(s.claims, p),
    ensures
        outcome(s, Command::Claim { caller: p, now }) == Err::<(), SpotEventError>(SpotEventError::LimitExceeded),
        after(s, Command::Claim { caller: p, now }) == s,
{
}

/// The window is inclusive: an otherwise eligible claim is accepted at its
/// first instant, refused as not started one instant earlier, and refused as
/// ended one instant after its last.
pub proof fn lemma_window_boundary(s: EventState, p: Principal, start: u64, end: u64)
    requires
        s.inv(),
        s.window == Some(ClaimWindow { start, end }),
        !claimed_in(s.claims, p),
        s.capacity.issued < s.capacity.max,
    ensures
        outcome(s, Command::Claim { caller: p, now: start }) is Ok,
        outcome(s, Command::Claim { caller: p, now: end }) is Ok,
        start > 0 ==> outcome(s, Command::Claim { caller: p, now: (start - 1) as u64 })
            == Err::<(), SpotEventError>(SpotEventError::ClaimPeriodNotStarted),
        end < u64::MAX ==> outcome(s, Command::Claim { caller: p, now: (end + 1) as u64 })
            == Err::<(), SpotEventError>(SpotEventError::ClaimPeriodEnded),
{
}

/// A claim repeated at the same instant after it was accepted is refused with
/// `AlreadyMinted` and changes nothing: the count of credentials went up once.
pub proof fn lemma_duplicate_rejected(s: EventState, p: Principal, now: u64)
    requires
        s.inv(),
        outcome(s, Command::Claim { caller: p, now }) is Ok,
    ensures
        ({
            let c = Command::Claim { caller: p, now };
            let s1 = after(s, c);
            &&& s1.capacity.issued == s.capacity.issued + 1
            &&& outcome(s1, c) == Err::<(), SpotEventError>(SpotEventError::AlreadyMinted)
            &&& after(s1, c) == s1
        }),
{
    let c = Command::Claim { caller: p, now };
    lemma_step(s, c);
    assert(claimed_in(after(s, c).claims, p));
}

/// Every administrative command from a caller without the admin role fails
/// with `Unauthorized` and leaves the state as it was.
pub proof fn lemma_admin_gating(s: EventState, c: Command)
    requires
        !(c is Claim),
        !is_admin(s, caller_of(c)),
    ensures
        outcome(s, c) == Err::<(), SpotEventError>(SpotEventError::Unauthorized),
        after(s, c) == s,
{
}

} // verus!
