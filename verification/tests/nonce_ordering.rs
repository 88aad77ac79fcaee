//! Nonce-ordering integration tests: an indexer consuming the stream can
//! rely on the nonce as the sole ordering key and detect gaps, duplicates,
//! and replays.

use xconfess_contract::state::ContractState;

const NOW: u64 = 1000;

fn s(text: &str) -> String {
    String::from(text)
}

/// Simulates an indexer tracking events.
struct MockIndexer {
    last_seen_nonce: u64,
    event_count: u64,
    gaps_detected: Vec<(u64, u64)>, // (expected, actual)
    duplicates_detected: Vec<u64>,
}

impl MockIndexer {
    fn new() -> Self {
        Self {
            last_seen_nonce: 0,
            event_count: 0,
            gaps_detected: Vec::new(),
            duplicates_detected: Vec::new(),
        }
    }

    fn process_event(&mut self, nonce: u64) {
        self.event_count += 1;

        // Check for gaps.
        let expected_nonce = self.last_seen_nonce + 1;
        if nonce != expected_nonce && self.last_seen_nonce > 0 {
            self.gaps_detected.push((expected_nonce, nonce));
        }

        // Check for duplicates.
        if nonce <= self.last_seen_nonce && self.last_seen_nonce > 0 {
            self.duplicates_detected.push(nonce);
        }

        self.last_seen_nonce = nonce;
    }

    fn has_gaps(&self) -> bool {
        !self.gaps_detected.is_empty()
    }

    fn has_duplicates(&self) -> bool {
        !self.duplicates_detected.is_empty()
    }
}

#[test]
fn test_sequential_event_processing() {
    let mut state = ContractState::new();
    let mut indexer = MockIndexer::new();
    let author: u64 = 100;

    // Emit 20 sequential events.
    for i in 1..=20 {
        state.emit_confession(i, author, s("hash"), NOW).unwrap();
        let nonce = state.get_current_nonce();
        indexer.process_event(nonce);
    }

    assert_eq!(indexer.event_count, 20);
    assert!(!indexer.has_gaps(), "No gaps should be detected");
    assert!(!indexer.has_duplicates(), "No duplicates should be detected");
    assert_eq!(indexer.last_seen_nonce, 20);
}

#[test]
fn test_mixed_event_types_maintain_order() {
    let mut state = ContractState::new();
    let mut indexer = MockIndexer::new();
    let addr1: u64 = 100;
    let addr2: u64 = 101;

    state.emit_confession(1, addr1, s("hash1"), NOW).unwrap();
    indexer.process_event(state.get_current_nonce());

    state.emit_reaction(1, addr2, s("like"), NOW).unwrap();
    indexer.process_event(state.get_current_nonce());

    state.emit_report(1, addr2, s("spam"), NOW).unwrap();
    indexer.process_event(state.get_current_nonce());

    state.emit_role(addr1, s("admin"), true, NOW).unwrap();
    indexer.process_event(state.get_current_nonce());

    state.emit_confession(2, addr1, s("hash2"), NOW).unwrap();
    indexer.process_event(state.get_current_nonce());

    assert_eq!(indexer.event_count, 5);
    assert!(!indexer.has_gaps());
    assert!(!indexer.has_duplicates());
}

#[test]
fn test_out_of_order_detection() {
    let mut indexer = MockIndexer::new();

    // Simulate receiving events out of order.
    indexer.process_event(1);
    indexer.process_event(2);
    indexer.process_event(5); // Gap: missing 3, 4
    indexer.process_event(6);

    assert!(indexer.has_gaps(), "Gap should be detected");
    assert_eq!(indexer.gaps_detected.len(), 1);
    assert_eq!(indexer.gaps_detected[0], (3, 5));
}

#[test]
fn test_duplicate_event_detection() {
    let mut indexer = MockIndexer::new();

    indexer.process_event(1);
    indexer.process_event(2);
    indexer.process_event(3);
    indexer.process_event(2); // Duplicate

    assert!(indexer.has_duplicates(), "Duplicate should be detected");
    assert_eq!(indexer.duplicates_detected.len(), 1);
    assert_eq!(indexer.duplicates_detected[0], 2);
}

#[test]
fn test_replay_attack_detection() {
    let mut indexer = MockIndexer::new();

    for i in 1..=10 {
        indexer.process_event(i);
    }

    // Attempt to replay old events.
    indexer.process_event(5); // Replay
    indexer.process_event(3); // Replay

    assert!(indexer.has_duplicates());
    assert_eq!(indexer.duplicates_detected.len(), 2);
}

#[test]
fn test_high_volume_event_stream() {
    let mut state = ContractState::new();
    let mut indexer = MockIndexer::new();
    let author: u64 = 100;

    for i in 1..=1000 {
        state.emit_confession(i, author, s("hash"), NOW).unwrap();
        let nonce = state.get_current_nonce();
        indexer.process_event(nonce);
    }

    assert_eq!(indexer.event_count, 1000);
    assert!(!indexer.has_gaps());
    assert!(!indexer.has_duplicates());
    assert_eq!(indexer.last_seen_nonce, 1000);
}

#[test]
fn test_nonce_reconciliation() {
    let mut state = ContractState::new();
    let author: u64 = 100;

    for i in 1..=50 {
        state.emit_confession(i, author, s("hash"), NOW).unwrap();
    }

    // An indexer queries the latest nonce for reconciliation.
    let latest_nonce = state.get_current_nonce();
    assert_eq!(latest_nonce, 50);

    // Having seen only 45 events, it knows 5 are missing.
    let indexer_last_seen = 45u64;
    let missing_count = latest_nonce - indexer_last_seen;
    assert_eq!(missing_count, 5);
}

#[test]
fn test_multi_entity_event_ordering() {
    let mut state = ContractState::new();
    let mut indexer = MockIndexer::new();
    let author1: u64 = 100;
    let author2: u64 = 101;
    let author3: u64 = 102;

    state.emit_confession(1, author1, s("hash1"), NOW).unwrap();
    indexer.process_event(state.get_current_nonce());

    state.emit_confession(2, author2, s("hash2"), NOW).unwrap();
    indexer.process_event(state.get_current_nonce());

    state.emit_reaction(1, author3, s("like"), NOW).unwrap();
    indexer.process_event(state.get_current_nonce());

    state.emit_confession(3, author1, s("hash3"), NOW).unwrap();
    indexer.process_event(state.get_current_nonce());

    state.emit_reaction(2, author1, s("love"), NOW).unwrap();
    indexer.process_event(state.get_current_nonce());

    // All events are ordered globally.
    assert_eq!(indexer.event_count, 5);
    assert!(!indexer.has_gaps());
    assert_eq!(indexer.last_seen_nonce, 5);
}

#[test]
fn test_event_stream_resumption() {
    let mut state = ContractState::new();
    let author: u64 = 100;

    // First batch of events.
    for i in 1..=10 {
        state.emit_confession(i, author, s("hash"), NOW).unwrap();
    }

    let checkpoint_nonce = state.get_current_nonce();
    assert_eq!(checkpoint_nonce, 10);

    // An indexer restart queries the last known nonce.
    let resume_from = checkpoint_nonce;

    // Second batch of events.
    for i in 11..=20 {
        state.emit_confession(i, author, s("hash"), NOW).unwrap();
    }

    let final_nonce = state.get_current_nonce();
    assert_eq!(final_nonce, 20);

    // The indexer knows it must fetch events from nonce 11 to 20.
    let events_to_fetch = final_nonce - resume_from;
    assert_eq!(events_to_fetch, 10);
}

#[test]
fn test_concurrent_event_emission_ordering() {
    let mut state = ContractState::new();
    let mut indexer = MockIndexer::new();
    let addr1: u64 = 100;
    let addr2: u64 = 101;

    // The host serializes transactions, so events are still ordered.
    state.emit_confession(1, addr1, s("hash1"), NOW).unwrap();
    state.emit_reaction(1, addr2, s("like"), NOW).unwrap();
    state.emit_confession(2, addr2, s("hash2"), NOW).unwrap();
    state.emit_reaction(2, addr1, s("love"), NOW).unwrap();

    for i in 1..=4 {
        indexer.process_event(i);
    }

    assert_eq!(indexer.event_count, 4);
    assert!(!indexer.has_gaps());
    assert!(!indexer.has_duplicates());
}
