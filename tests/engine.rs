use spot_event::{Principal, Role, SpotEvent, SpotEventError};

fn p(id: u64) -> Principal {
    Principal::new(id)
}

fn open_event(max: u32, start: u64, end: u64) -> SpotEvent {
    let mut ev = SpotEvent::new(p(1), max).unwrap();
    ev.set_window(p(1), start, end).unwrap();
    ev
}

#[test]
fn scenario_two_slots() {
    let mut ev = open_event(2, 100, 200);
    let (a, b, c) = (p(10), p(11), p(12));
    assert_eq!(ev.claim(a, 150), Ok(()));
    assert_eq!(ev.issued(), 1);
    assert_eq!(ev.claim(b, 160), Ok(()));
    assert_eq!(ev.issued(), 2);
    assert_eq!(ev.claim(c, 170), Err(SpotEventError::LimitExceeded));
    assert_eq!(ev.claim(a, 180), Err(SpotEventError::AlreadyMinted));
    assert_eq!(ev.issued(), 2);
    assert!(ev.has_claimed(a));
    assert!(ev.has_claimed(b));
    assert!(!ev.has_claimed(c));
    assert_eq!(ev.claimed_at(a), Some(150));
    assert_eq!(ev.claimed_at(b), Some(160));
    assert_eq!(ev.claimed_at(c), None);
}

#[test]
fn window_boundaries() {
    let mut ev = open_event(10, 100, 200);
    assert_eq!(ev.claim(p(20), 99), Err(SpotEventError::ClaimPeriodNotStarted));
    assert_eq!(ev.claim(p(20), 201), Err(SpotEventError::ClaimPeriodEnded));
    assert_eq!(ev.issued(), 0);
    assert_eq!(ev.claim(p(20), 100), Ok(()));
    assert_eq!(ev.claim(p(21), 200), Ok(()));
    assert_eq!(ev.issued(), 2);
}

#[test]
fn unset_window_refuses_claims() {
    let mut ev = SpotEvent::new(p(1), 5).unwrap();
    assert_eq!(ev.window(), None);
    assert_eq!(ev.claim(p(2), 0), Err(SpotEventError::ClaimPeriodNotStarted));
    assert_eq!(ev.claim(p(2), u64::MAX), Err(SpotEventError::ClaimPeriodNotStarted));
    assert_eq!(ev.issued(), 0);
}

#[test]
fn duplicate_claim_same_instant() {
    let mut ev = open_event(3, 0, 10);
    assert_eq!(ev.claim(p(5), 5), Ok(()));
    assert_eq!(ev.claim(p(5), 5), Err(SpotEventError::AlreadyMinted));
    assert_eq!(ev.issued(), 1);
}

#[test]
fn window_is_tested_before_duplicates() {
    let mut ev = open_event(3, 10, 20);
    assert_eq!(ev.claim(p(5), 15), Ok(()));
    assert_eq!(ev.claim(p(5), 21), Err(SpotEventError::ClaimPeriodEnded));
    assert_eq!(ev.claim(p(5), 9), Err(SpotEventError::ClaimPeriodNotStarted));
}

#[test]
fn duplicates_are_tested_before_capacity() {
    let mut ev = open_event(1, 0, 10);
    assert_eq!(ev.claim(p(5), 1), Ok(()));
    assert_eq!(ev.claim(p(5), 2), Err(SpotEventError::AlreadyMinted));
    assert_eq!(ev.claim(p(6), 2), Err(SpotEventError::LimitExceeded));
}

#[test]
fn zero_capacity_is_rejected() {
    assert!(matches!(SpotEvent::new(p(1), 0), Err(SpotEventError::InvalidParameters)));
}

#[test]
fn creator_is_only_admin() {
    let ev = SpotEvent::new(p(1), 4).unwrap();
    assert!(ev.has_role(p(1), Role::Admin));
    assert!(!ev.has_role(p(1), Role::Minter));
    assert!(!ev.has_role(p(2), Role::Admin));
    assert_eq!(ev.max(), 4);
    assert_eq!(ev.issued(), 0);
}

#[test]
fn non_admin_is_unauthorized_and_changes_nothing() {
    let mut ev = open_event(2, 100, 200);
    let outsider = p(9);
    assert_eq!(ev.set_window(outsider, 0, 1), Err(SpotEventError::Unauthorized));
    assert_eq!(ev.set_max(outsider, 50), Err(SpotEventError::Unauthorized));
    assert_eq!(ev.grant_role(outsider, outsider, Role::Admin), Err(SpotEventError::Unauthorized));
    assert_eq!(ev.revoke_role(outsider, p(1), Role::Admin), Err(SpotEventError::Unauthorized));
    assert_eq!(ev.window().map(|w| (w.start, w.end)), Some((100, 200)));
    assert_eq!(ev.max(), 2);
    assert!(!ev.has_role(outsider, Role::Admin));
    assert!(ev.has_role(p(1), Role::Admin));
}

#[test]
fn inverted_window_is_rejected() {
    let mut ev = open_event(2, 100, 200);
    assert_eq!(ev.set_window(p(1), 300, 299), Err(SpotEventError::InvalidParameters));
    assert_eq!(ev.window().map(|w| (w.start, w.end)), Some((100, 200)));
    assert_eq!(ev.set_window(p(1), 300, 300), Ok(()));
    assert_eq!(ev.window().map(|w| (w.start, w.end)), Some((300, 300)));
}

#[test]
fn set_max_bounds() {
    let mut ev = open_event(3, 0, 100);
    assert_eq!(ev.claim(p(2), 1), Ok(()));
    assert_eq!(ev.claim(p(3), 1), Ok(()));
    assert_eq!(ev.set_max(p(1), 0), Err(SpotEventError::InvalidParameters));
    assert_eq!(ev.set_max(p(1), 1), Err(SpotEventError::InvalidParameters));
    assert_eq!(ev.max(), 3);
    assert_eq!(ev.set_max(p(1), 2), Ok(()));
    assert_eq!(ev.max(), 2);
    assert_eq!(ev.claim(p(4), 1), Err(SpotEventError::LimitExceeded));
    assert_eq!(ev.set_max(p(1), u32::MAX), Ok(()));
    assert_eq!(ev.claim(p(4), 1), Ok(()));
    assert_eq!(ev.issued(), 3);
}

#[test]
fn grant_and_revoke_roles() {
    let mut ev = SpotEvent::new(p(1), 4).unwrap();
    assert_eq!(ev.grant_role(p(1), p(2), Role::Admin), Ok(()));
    assert_eq!(ev.grant_role(p(1), p(2), Role::Admin), Ok(()));
    assert!(ev.has_role(p(2), Role::Admin));
    assert_eq!(ev.set_max(p(2), 9), Ok(()));
    assert_eq!(ev.revoke_role(p(1), p(2), Role::Admin), Ok(()));
    assert!(!ev.has_role(p(2), Role::Admin));
    assert_eq!(ev.revoke_role(p(1), p(2), Role::Admin), Err(SpotEventError::RoleNotFound));
    assert_eq!(ev.set_max(p(2), 8), Err(SpotEventError::Unauthorized));
    assert_eq!(ev.grant_role(p(1), p(3), Role::Minter), Ok(()));
    assert!(ev.has_role(p(3), Role::Minter));
    assert!(!ev.has_role(p(3), Role::Admin));
}

#[test]
fn revoked_admin_loses_power() {
    let mut ev = SpotEvent::new(p(1), 4).unwrap();
    assert_eq!(ev.revoke_role(p(1), p(1), Role::Admin), Ok(()));
    assert_eq!(ev.set_window(p(1), 0, 10), Err(SpotEventError::Unauthorized));
}

#[test]
fn capacity_of_one_each_principal_once() {
    let mut ev = open_event(1, 0, u64::MAX);
    assert_eq!(ev.claim(p(7), u64::MAX), Ok(()));
    assert_eq!(ev.claim(p(8), 0), Err(SpotEventError::LimitExceeded));
    assert_eq!(ev.issued(), 1);
    assert_eq!(ev.max(), 1);
}

#[test]
fn event_error_symbols() {
    assert_eq!(SpotEventError::Unauthorized.to_symbol(), "UNAUTHORIZED");
    assert_eq!(SpotEventError::AlreadyMinted.to_symbol(), "ALREADY_MINTED");
    assert_eq!(SpotEventError::LimitExceeded.to_symbol(), "LIMIT_EXCEEDED");
    assert_eq!(SpotEventError::ClaimPeriodEnded.to_symbol(), "CLAIM_ENDED");
    assert_eq!(SpotEventError::ClaimPeriodNotStarted.to_symbol(), "CLAIM_NOT_STARTED");
    assert_eq!(SpotEventError::InvalidParameters.to_symbol(), "INVALID_PARAMS");
    assert_eq!(SpotEventError::RoleNotFound.to_symbol(), "ROLE_NOT_FOUND");
}

#[test]
fn exactly_one_success_per_principal() {
    let mut ev = open_event(3, 0, 1000);
    let mut successes = [0u32; 5];
    for round in 0..4u64 {
        for id in 0..5u64 {
            if ev.claim(p(100 + id), round * 10 + id) == Ok(()) {
                successes[id as usize] += 1;
            }
        }
    }
    assert_eq!(successes, [1, 1, 1, 0, 0]);
    assert_eq!(ev.issued(), 3);
    for id in 0..5u64 {
        assert_eq!(ev.has_claimed(p(100 + id)), id < 3);
    }
    assert_eq!(ev.claimed_at(p(101)), Some(1));
}

#[test]
fn positive_bound_always_creates() {
    for max in [1u32, 2, u32::MAX] {
        let ev = SpotEvent::new(p(3), max).unwrap();
        assert_eq!(ev.max(), max);
        assert_eq!(ev.issued(), 0);
        assert_eq!(ev.window(), None);
        assert!(ev.has_role(p(3), Role::Admin));
    }
}
