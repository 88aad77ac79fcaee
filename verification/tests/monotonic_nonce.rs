//! Monotonic-nonce tests: every emitted event consumes exactly the next
//! value of the single global counter.

use xconfess_contract::events::{
    ConfessionEvent, ReactionEvent, ReportEvent, RoleEvent, EVENT_VERSION_V1,
};
use xconfess_contract::state::ContractState;

const AUTHOR: u64 = 100;
const NOW: u64 = 1000;

fn setup_state() -> ContractState {
    ContractState::new()
}

fn s(text: &str) -> String {
    String::from(text)
}

#[test]
fn test_nonce_starts_at_zero() {
    let state = setup_state();
    let nonce = state.get_current_nonce();
    assert_eq!(nonce, 0, "Initial nonce should be 0");
}

#[test]
fn test_confession_event_increments_nonce() {
    let mut state = setup_state();

    assert_eq!(state.get_current_nonce(), 0);

    state.emit_confession(1, AUTHOR, s("hash1"), NOW).unwrap();
    assert_eq!(state.get_current_nonce(), 1, "Nonce should be 1 after first event");

    state.emit_confession(2, AUTHOR, s("hash2"), NOW).unwrap();
    assert_eq!(state.get_current_nonce(), 2, "Nonce should be 2 after second event");
}

#[test]
fn test_reaction_event_increments_nonce() {
    let mut state = setup_state();
    let reactor: u64 = 101;

    assert_eq!(state.get_current_nonce(), 0);

    state.emit_reaction(1, reactor, s("like"), NOW).unwrap();
    assert_eq!(state.get_current_nonce(), 1);

    state.emit_reaction(1, reactor, s("love"), NOW).unwrap();
    assert_eq!(state.get_current_nonce(), 2);
}

#[test]
fn test_report_event_increments_nonce() {
    let mut state = setup_state();
    let reporter: u64 = 102;

    assert_eq!(state.get_current_nonce(), 0);

    state.emit_report(1, reporter, s("spam"), NOW).unwrap();
    assert_eq!(state.get_current_nonce(), 1);

    state.emit_report(2, reporter, s("abuse"), NOW).unwrap();
    assert_eq!(state.get_current_nonce(), 2);
}

#[test]
fn test_role_event_increments_nonce() {
    let mut state = setup_state();
    let user: u64 = 103;

    assert_eq!(state.get_current_nonce(), 0);

    state.emit_role(user, s("admin"), true, NOW).unwrap();
    assert_eq!(state.get_current_nonce(), 1);

    state.emit_role(user, s("mod"), true, NOW).unwrap();
    assert_eq!(state.get_current_nonce(), 2);
}

#[test]
fn test_mixed_events_increment_nonce_sequentially() {
    let mut state = setup_state();
    let addr1: u64 = 100;
    let addr2: u64 = 101;

    assert_eq!(state.get_current_nonce(), 0);

    state.emit_confession(1, addr1, s("hash1"), NOW).unwrap();
    assert_eq!(state.get_current_nonce(), 1);

    state.emit_reaction(1, addr2, s("like"), NOW).unwrap();
    assert_eq!(state.get_current_nonce(), 2);

    state.emit_report(1, addr2, s("spam"), NOW).unwrap();
    assert_eq!(state.get_current_nonce(), 3);

    state.emit_role(addr1, s("admin"), true, NOW).unwrap();
    assert_eq!(state.get_current_nonce(), 4);

    state.emit_confession(2, addr1, s("hash2"), NOW).unwrap();
    assert_eq!(state.get_current_nonce(), 5);
}

#[test]
fn test_nonce_is_monotonic_increasing() {
    let mut state = setup_state();

    let mut last_nonce = 0u64;

    // Emit 10 events; each nonce is exactly 1 more than the previous.
    for i in 1..=10 {
        state.emit_confession(i, AUTHOR, s("hash"), NOW).unwrap();
        let current_nonce = state.get_current_nonce();
        assert_eq!(current_nonce, last_nonce + 1, "Nonce should increment by exactly 1");
        last_nonce = current_nonce;
    }

    assert_eq!(last_nonce, 10, "Final nonce should be 10");
}

#[test]
fn test_event_payload_contains_nonce() {
    let mut state = setup_state();

    let allocated = state.emit_confession(1, AUTHOR, s("hash1"), NOW).unwrap();
    assert_eq!(allocated, 1);
    assert_eq!(state.get_current_nonce(), 1);
    assert_eq!(state.event_at(0).nonce(), 1);

    let allocated = state.emit_confession(2, AUTHOR, s("hash2"), NOW).unwrap();
    assert_eq!(allocated, 2);
    assert_eq!(state.get_current_nonce(), 2);
    assert_eq!(state.event_at(1).nonce(), 2);
}

#[test]
fn test_nonce_persists_across_operations() {
    let mut state = setup_state();
    let addr: u64 = 100;

    state.emit_confession(1, addr, s("hash1"), NOW).unwrap();
    state.emit_reaction(1, addr, s("like"), NOW).unwrap();

    let nonce_after_two = state.get_current_nonce();
    assert_eq!(nonce_after_two, 2);

    // Querying again without emitting returns the same value.
    let nonce_query = state.get_current_nonce();
    assert_eq!(nonce_query, 2, "Nonce should persist");

    state.emit_report(1, addr, s("spam"), NOW).unwrap();
    assert_eq!(state.get_current_nonce(), 3);
}

#[test]
fn test_high_volume_nonce_sequence() {
    let mut state = setup_state();

    let event_count = 100u64;

    for i in 1..=event_count {
        state.emit_confession(i, AUTHOR, s("hash"), NOW).unwrap();
        assert_eq!(state.get_current_nonce(), i);
    }

    assert_eq!(state.get_current_nonce(), event_count);
}

#[test]
fn test_nonce_enables_gap_detection() {
    let mut state = setup_state();
    let addr: u64 = 100;

    let mut received_nonces = Vec::new();

    for i in 1..=5 {
        state.emit_confession(i, addr, s("hash"), NOW).unwrap();
        received_nonces.push(state.get_current_nonce());
    }

    for i in 0..received_nonces.len() {
        assert_eq!(received_nonces[i], (i + 1) as u64);
    }

    let expected_sequence: Vec<u64> = (1..=5).collect();
    assert_eq!(received_nonces, expected_sequence, "No gaps should exist");
}

#[test]
fn test_nonce_enables_duplicate_detection() {
    let mut state = setup_state();
    let addr: u64 = 100;

    let mut seen_nonces = std::collections::HashSet::new();

    for i in 1..=10 {
        state.emit_confession(i, addr, s("hash"), NOW).unwrap();
        let nonce = state.get_current_nonce();

        assert!(!seen_nonces.contains(&nonce), "Duplicate nonce detected: {}", nonce);
        seen_nonces.insert(nonce);
    }

    assert_eq!(seen_nonces.len(), 10, "Should have 10 unique nonces");
}

#[test]
fn test_event_struct_includes_nonce_field() {
    let event = ConfessionEvent {
        event_version: EVENT_VERSION_V1,
        nonce: 42,
        confession_id: 1,
        author: AUTHOR,
        content_hash: s("hash"),
        timestamp: 1000,
    };

    assert_eq!(event.nonce, 42, "Event should contain nonce field");
    assert_eq!(event.event_version, 1);
}

#[test]
fn test_reaction_event_struct_includes_nonce() {
    let event = ReactionEvent {
        event_version: EVENT_VERSION_V1,
        nonce: 10,
        confession_id: 1,
        reactor: 101,
        reaction_type: s("like"),
        timestamp: 2000,
    };

    assert_eq!(event.nonce, 10);
}

#[test]
fn test_report_event_struct_includes_nonce() {
    let event = ReportEvent {
        event_version: EVENT_VERSION_V1,
        nonce: 20,
        confession_id: 1,
        reporter: 102,
        reason: s("spam"),
        timestamp: 3000,
    };

    assert_eq!(event.nonce, 20);
}

#[test]
fn test_role_event_struct_includes_nonce() {
    let event = RoleEvent {
        event_version: EVENT_VERSION_V1,
        nonce: 30,
        user: 103,
        role: s("admin"),
        granted: true,
        timestamp: 4000,
    };

    assert_eq!(event.nonce, 30);
}

#[test]
fn governance_and_domain_events_share_one_nonce_space() {
    let mut state = setup_state();
    state.initialize(1).unwrap();

    state.emit_confession(1, AUTHOR, s("hash1"), NOW).unwrap();
    state.grant_admin(1, 10, NOW).unwrap();
    state.emit_reaction(1, AUTHOR, s("like"), NOW).unwrap();

    assert_eq!(state.get_current_nonce(), 3);
    assert_eq!(state.get_latest_gov_nonce(), 3);
    for i in 0..state.event_count() {
        assert_eq!(state.event_at(i).nonce(), (i + 1) as u64);
    }
}
