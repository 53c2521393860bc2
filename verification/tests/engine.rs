use idempotency::coordinator::{complete, try_begin, NextAction, TryBeginError};
use idempotency::idempotency_key::IdempotencyKey;
use idempotency::response::{HeaderPair, ResponseRecord};
use idempotency::store::{ClaimState, ClaimStore, InsertOutcome, OwnerId, StoreError};

fn key(s: &str) -> IdempotencyKey {
    IdempotencyKey::try_from(s.to_string()).unwrap()
}

fn ok_response() -> ResponseRecord {
    ResponseRecord { status_code: 200, headers: Vec::new(), body: b"ok".to_vec() }
}

#[test]
fn first_caller_starts_processing() {
    let mut store = ClaimStore::new();
    let r = try_begin(&mut store, OwnerId(1), &key("K1"), 100);
    assert!(matches!(r, Ok(NextAction::StartProcessing)));
}

#[test]
fn concurrent_loser_sees_in_progress() {
    let mut store = ClaimStore::new();
    let k = key("K1");
    let r1 = try_begin(&mut store, OwnerId(1), &k, 100);
    assert!(matches!(r1, Ok(NextAction::StartProcessing)));
    let r2 = try_begin(&mut store, OwnerId(1), &k, 101);
    assert!(matches!(r2, Err(TryBeginError::ProcessingInProgress)));
}

#[test]
fn single_winner_among_many_callers() {
    let mut store = ClaimStore::new();
    let k = key("K1");
    let mut winners: u32 = 0;
    for i in 0..5u64 {
        match try_begin(&mut store, OwnerId(1), &k, 100 + i) {
            Ok(NextAction::StartProcessing) => winners += 1,
            Ok(NextAction::ReturnSavedResponse(_)) => panic!("nothing recorded yet"),
            Err(TryBeginError::ProcessingInProgress) => {}
        }
    }
    assert_eq!(winners, 1);
}

#[test]
fn completed_pair_replays_verbatim() {
    let mut store = ClaimStore::new();
    let k = key("K1");
    assert!(matches!(try_begin(&mut store, OwnerId(1), &k, 100), Ok(NextAction::StartProcessing)));
    complete(&mut store, OwnerId(1), &k, ok_response()).unwrap();
    // Replays arbitrarily many times, identical each time.
    for _ in 0..3 {
        match try_begin(&mut store, OwnerId(1), &k, 200) {
            Ok(NextAction::ReturnSavedResponse(saved)) => {
                assert_eq!(saved, ok_response());
            }
            other => panic!("expected a saved response, got {:?}", other),
        }
    }
}

#[test]
fn replay_preserves_header_order_and_bytes() {
    let mut store = ClaimStore::new();
    let k = key("K1");
    let recorded = ResponseRecord {
        status_code: 303,
        headers: vec![
            HeaderPair { name: "x-b".to_string(), value: b"2".to_vec() },
            HeaderPair { name: "x-a".to_string(), value: b"1".to_vec() },
        ],
        body: vec![0, 159, 146, 150],
    };
    assert!(matches!(try_begin(&mut store, OwnerId(1), &k, 100), Ok(NextAction::StartProcessing)));
    complete(&mut store, OwnerId(1), &k, recorded).unwrap();
    match try_begin(&mut store, OwnerId(1), &k, 200) {
        Ok(NextAction::ReturnSavedResponse(saved)) => {
            assert_eq!(saved.status_code, 303);
            assert_eq!(saved.headers.len(), 2);
            assert_eq!(saved.headers[0].name, "x-b");
            assert_eq!(saved.headers[0].value, b"2".to_vec());
            assert_eq!(saved.headers[1].name, "x-a");
            assert_eq!(saved.headers[1].value, b"1".to_vec());
            assert_eq!(saved.body, vec![0, 159, 146, 150]);
        }
        other => panic!("expected a saved response, got {:?}", other),
    }
}

#[test]
fn different_keys_do_not_interfere() {
    let mut store = ClaimStore::new();
    let r1 = try_begin(&mut store, OwnerId(1), &key("K1"), 100);
    let r2 = try_begin(&mut store, OwnerId(1), &key("K2"), 101);
    assert!(matches!(r1, Ok(NextAction::StartProcessing)));
    assert!(matches!(r2, Ok(NextAction::StartProcessing)));
}

#[test]
fn different_owners_do_not_interfere() {
    let mut store = ClaimStore::new();
    let k = key("K1");
    let r1 = try_begin(&mut store, OwnerId(1), &k, 100);
    let r2 = try_begin(&mut store, OwnerId(2), &k, 101);
    assert!(matches!(r1, Ok(NextAction::StartProcessing)));
    assert!(matches!(r2, Ok(NextAction::StartProcessing)));
    // The second owner's completion does not leak into the first owner's pair.
    complete(&mut store, OwnerId(2), &k, ok_response()).unwrap();
    assert!(matches!(
        try_begin(&mut store, OwnerId(1), &k, 102),
        Err(TryBeginError::ProcessingInProgress)
    ));
}

#[test]
fn complete_without_claim_is_rejected() {
    let mut store = ClaimStore::new();
    let r = complete(&mut store, OwnerId(1), &key("K1"), ok_response());
    assert!(matches!(r, Err(StoreError::ClaimNotFound)));
}

#[test]
fn complete_twice_is_rejected() {
    let mut store = ClaimStore::new();
    let k = key("K1");
    assert!(matches!(try_begin(&mut store, OwnerId(1), &k, 100), Ok(NextAction::StartProcessing)));
    complete(&mut store, OwnerId(1), &k, ok_response()).unwrap();
    let r = complete(&mut store, OwnerId(1), &k, ok_response());
    assert!(matches!(r, Err(StoreError::AlreadyCompleted)));
}

#[test]
fn full_request_lifecycle() {
    let mut store = ClaimStore::new();
    let owner = OwnerId(1);
    let k = key("K1");
    // First submission wins the race and must perform the action.
    assert!(matches!(try_begin(&mut store, owner, &k, 100), Ok(NextAction::StartProcessing)));
    // A concurrent retry before completion is told to come back later.
    assert!(matches!(
        try_begin(&mut store, owner, &k, 101),
        Err(TryBeginError::ProcessingInProgress)
    ));
    // The winner records its response.
    complete(&mut store, owner, &k, ok_response()).unwrap();
    // Every further submission replays {200, [], "ok"} verbatim.
    match try_begin(&mut store, owner, &k, 102) {
        Ok(NextAction::ReturnSavedResponse(saved)) => {
            assert_eq!(saved.status_code, 200);
            assert!(saved.headers.is_empty());
            assert_eq!(saved.body, b"ok".to_vec());
        }
        other => panic!("expected a saved response, got {:?}", other),
    }
}

#[test]
fn insert_claim_splits_winner_and_losers() {
    let mut store = ClaimStore::new();
    let k = key("K1");
    assert!(matches!(store.insert_claim(OwnerId(1), &k, 100), InsertOutcome::Inserted));
    assert!(matches!(store.insert_claim(OwnerId(1), &k, 101), InsertOutcome::AlreadyExists));
    assert!(matches!(store.insert_claim(OwnerId(1), &k, 102), InsertOutcome::AlreadyExists));
}

#[test]
fn fetch_record_reads_back_the_claim() {
    let mut store = ClaimStore::new();
    let k = key("K1");
    assert!(store.fetch_record(OwnerId(1), &k).is_none());
    store.insert_claim(OwnerId(1), &k, 100);
    let rec = store.fetch_record(OwnerId(1), &k).unwrap();
    assert_eq!(rec.owner_id, OwnerId(1));
    assert_eq!(rec.created_at, 100);
    assert!(matches!(rec.state, ClaimState::InFlight));
    assert!(store.fetch_record(OwnerId(2), &k).is_none());
    assert!(store.fetch_record(OwnerId(1), &key("K2")).is_none());
}
