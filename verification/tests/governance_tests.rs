//! Governance-transfer tests: the timelocked ownership handover and its
//! audit trail.

use xconfess_contract::errors::ContractError;
use xconfess_contract::events::Event;
use xconfess_contract::state::ContractState;

const OWNER: u64 = 1;
const NEW_OWNER: u64 = 5;
const T0: u64 = 1000;
const DEFAULT_TIMELOCK: u64 = 86_400;

fn setup(admin_count: u32) -> ContractState {
    let mut s = ContractState::new();
    s.initialize(OWNER).unwrap();
    for i in 0..admin_count {
        s.grant_admin(OWNER, 10 + i as u64, T0).unwrap();
    }
    s
}

#[test]
fn initialize_is_one_time() {
    let mut s = ContractState::new();
    assert_eq!(s.get_owner(), None);
    s.initialize(OWNER).unwrap();
    assert_eq!(s.get_owner(), Some(OWNER));
    assert_eq!(s.initialize(7), Err(ContractError::AlreadyInitialized));
    assert_eq!(s.get_owner(), Some(OWNER));
}

#[test]
fn accept_before_timelock_fails_then_succeeds() {
    // Scenario: propose, accept too early, accept again once the timelock
    // has elapsed; the admin set is unchanged by the transfer.
    let mut s = setup(1);
    let admins_before = s.count_admins();

    s.propose(OWNER, NEW_OWNER, T0).unwrap();

    let r = s.accept(NEW_OWNER, T0 + DEFAULT_TIMELOCK - 1);
    assert_eq!(r, Err(ContractError::TimelockNotElapsed));
    assert_eq!(s.get_owner(), Some(OWNER));

    let r = s.accept(NEW_OWNER, T0 + DEFAULT_TIMELOCK);
    assert_eq!(r, Ok(()));
    assert_eq!(s.get_owner(), Some(NEW_OWNER));
    assert_eq!(s.count_admins(), admins_before);
    assert_eq!(s.get_pending(), None);
}

#[test]
fn accept_without_pending_fails() {
    let mut s = setup(0);
    let r = s.accept(NEW_OWNER, T0 + DEFAULT_TIMELOCK);
    assert_eq!(r, Err(ContractError::NoPendingTransfer));
}

#[test]
fn accept_is_self_authorized() {
    let mut s = setup(0);
    s.propose(OWNER, NEW_OWNER, T0).unwrap();

    // Nobody but the proposed owner may accept, not even the owner.
    let r = s.accept(OWNER, T0 + DEFAULT_TIMELOCK);
    assert_eq!(r, Err(ContractError::Unauthorized));
    let r = s.accept(99, T0 + DEFAULT_TIMELOCK);
    assert_eq!(r, Err(ContractError::Unauthorized));

    s.accept(NEW_OWNER, T0 + DEFAULT_TIMELOCK).unwrap();
    assert_eq!(s.get_owner(), Some(NEW_OWNER));
}

#[test]
fn cancel_discards_pending_transfer() {
    let mut s = setup(0);
    s.propose(OWNER, NEW_OWNER, T0).unwrap();
    assert!(s.get_pending().is_some());

    s.cancel(OWNER, T0 + 1).unwrap();
    assert_eq!(s.get_pending(), None);

    let r = s.accept(NEW_OWNER, T0 + DEFAULT_TIMELOCK);
    assert_eq!(r, Err(ContractError::NoPendingTransfer));
}

#[test]
fn cancel_of_nothing_is_benign() {
    let mut s = setup(0);
    let r = s.cancel(OWNER, T0);
    assert_eq!(r, Ok(()));
    // The redundant cancellation is still audited.
    assert_eq!(s.event_count(), 1);
    assert!(matches!(s.event_at(0), Event::Cancelled { .. }));
}

#[test]
fn last_proposal_wins() {
    let mut s = setup(0);
    s.propose(OWNER, 5, T0).unwrap();
    s.propose(OWNER, 6, T0 + 10).unwrap();

    // The first proposed owner was overwritten.
    let r = s.accept(5, T0 + 10 + DEFAULT_TIMELOCK);
    assert_eq!(r, Err(ContractError::Unauthorized));

    // The second proposal's timestamp gates the timelock.
    let r = s.accept(6, T0 + DEFAULT_TIMELOCK);
    assert_eq!(r, Err(ContractError::TimelockNotElapsed));
    s.accept(6, T0 + 10 + DEFAULT_TIMELOCK).unwrap();
    assert_eq!(s.get_owner(), Some(6));
}

#[test]
fn propose_rejects_self_transfer() {
    let mut s = setup(0);
    let r = s.propose(OWNER, OWNER, T0);
    assert_eq!(r, Err(ContractError::InvalidInput));
    assert_eq!(s.get_pending(), None);
}

#[test]
fn propose_requires_authorization() {
    let mut s = setup(0);
    let r = s.propose(99, NEW_OWNER, T0);
    assert_eq!(r, Err(ContractError::Unauthorized));
    assert_eq!(s.get_pending(), None);
}

#[test]
fn admin_may_propose_and_cancel() {
    let mut s = setup(1);
    let admin: u64 = 10;
    s.propose(admin, NEW_OWNER, T0).unwrap();
    assert!(s.get_pending().is_some());
    s.cancel(admin, T0 + 1).unwrap();
    assert_eq!(s.get_pending(), None);
}

#[test]
fn timelock_change_applies_retroactively() {
    let mut s = setup(0);
    s.propose(OWNER, NEW_OWNER, T0).unwrap();

    // Shorten the timelock after proposing: it is read fresh at accept
    // time, so the pending transfer matures earlier.
    s.set_timelock(OWNER, 10).unwrap();
    assert_eq!(s.get_timelock(), 10);

    let r = s.accept(NEW_OWNER, T0 + 9);
    assert_eq!(r, Err(ContractError::TimelockNotElapsed));
    s.accept(NEW_OWNER, T0 + 10).unwrap();
    assert_eq!(s.get_owner(), Some(NEW_OWNER));
}

#[test]
fn accept_rejects_target_that_became_admin() {
    let mut s = setup(0);
    s.propose(OWNER, NEW_OWNER, T0).unwrap();
    s.grant_admin(OWNER, NEW_OWNER, T0 + 1).unwrap();

    // The proposed owner is meanwhile an admin: completing the handover
    // would put the owner inside the admin set.
    let r = s.accept(NEW_OWNER, T0 + DEFAULT_TIMELOCK);
    assert_eq!(r, Err(ContractError::InvalidInput));
    assert_eq!(s.get_owner(), Some(OWNER));
}

#[test]
fn transfer_audit_trail_is_ordered() {
    let mut s = setup(0);
    s.propose(OWNER, NEW_OWNER, T0).unwrap();
    s.cancel(OWNER, T0 + 1).unwrap();
    s.propose(OWNER, NEW_OWNER, T0 + 2).unwrap();
    s.accept(NEW_OWNER, T0 + 2 + DEFAULT_TIMELOCK).unwrap();

    assert_eq!(s.event_count(), 4);
    match s.event_at(0) {
        Event::Proposed { nonce, old_owner, new_owner, .. } => {
            assert_eq!((*nonce, *old_owner, *new_owner), (1, OWNER, NEW_OWNER));
        }
        other => panic!("expected a proposal event, got {:?}", other),
    }
    match s.event_at(1) {
        Event::Cancelled { nonce, owner, .. } => {
            assert_eq!((*nonce, *owner), (2, OWNER));
        }
        other => panic!("expected a cancellation event, got {:?}", other),
    }
    match s.event_at(2) {
        Event::Proposed { nonce, .. } => assert_eq!(*nonce, 3),
        other => panic!("expected a proposal event, got {:?}", other),
    }
    match s.event_at(3) {
        Event::Accepted { nonce, old_owner, new_owner, .. } => {
            assert_eq!((*nonce, *old_owner, *new_owner), (4, OWNER, NEW_OWNER));
        }
        other => panic!("expected an acceptance event, got {:?}", other),
    }
}

#[test]
fn governance_event_emitters_share_the_sequence() {
    let mut s = setup(0);
    assert_eq!(s.proposed(OWNER, NEW_OWNER, T0).unwrap(), 1);
    assert_eq!(s.cancelled(OWNER, T0).unwrap(), 2);
    assert_eq!(s.accepted(OWNER, NEW_OWNER, T0).unwrap(), 3);
    let n = s
        .invariant_violation(String::from("revoke_admin"), String::from("refused"), OWNER, T0)
        .unwrap();
    assert_eq!(n, 4);
    assert_eq!(s.get_latest_gov_nonce(), 4);
    assert_eq!(s.event_count(), 4);
    assert!(matches!(s.event_at(0), Event::Proposed { .. }));
    assert!(matches!(s.event_at(1), Event::Cancelled { .. }));
    assert!(matches!(s.event_at(2), Event::Accepted { .. }));
    assert!(matches!(s.event_at(3), Event::InvariantViolation { .. }));
}

#[test]
fn grant_twice_changes_state_once() {
    // Idempotence: the second grant of the same target changes nothing
    // and publishes no duplicate record.
    let mut s = setup(0);
    let target: u64 = 10;

    s.grant_admin(OWNER, target, T0).unwrap();
    let admins = s.count_admins();
    let nonce = s.get_current_nonce();
    let events = s.event_count();

    let r = s.grant_admin(OWNER, target, T0 + 50);
    assert_eq!(r, Ok(()));
    assert_eq!(s.count_admins(), admins);
    assert_eq!(s.get_current_nonce(), nonce);
    assert_eq!(s.event_count(), events);
    assert!(s.is_admin(target));
}

#[test]
fn grant_rejects_the_owner_as_target() {
    let mut s = setup(0);
    let r = s.grant_admin(OWNER, OWNER, T0);
    assert_eq!(r, Err(ContractError::InvalidInput));
    assert!(!s.is_admin(OWNER));
}

#[test]
fn revoke_of_unknown_target_is_not_found() {
    let mut s = setup(2);
    let r = s.revoke_admin(OWNER, 77, T0);
    assert_eq!(r, Err(ContractError::NotFound));
    assert_eq!(s.count_admins(), 2);
}

#[test]
fn transfer_rejects_a_standing_admin_as_target() {
    let mut s = setup(1);
    let admin: u64 = 10;
    let r = s.transfer_ownership(OWNER, admin, T0);
    assert_eq!(r, Err(ContractError::InvalidInput));
    assert_eq!(s.get_owner(), Some(OWNER));
}
