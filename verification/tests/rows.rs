use idempotency::coordinator::{next_action_after_conflict, NextAction, TryBeginError};
use idempotency::response::{claim_state_from_row, HeaderPair, ResponseRecord, RowDecodeError};

fn sample_response() -> ResponseRecord {
    ResponseRecord {
        status_code: 303,
        headers: vec![HeaderPair { name: "location".to_string(), value: b"/admin".to_vec() }],
        body: b"see other".to_vec(),
    }
}

#[test]
fn all_null_row_is_in_flight() {
    let r = claim_state_from_row(None, None, None);
    assert!(matches!(r, Ok(None)));
}

#[test]
fn full_row_is_completed() {
    let rec = claim_state_from_row(
        Some(303),
        Some(vec![HeaderPair { name: "location".to_string(), value: b"/admin".to_vec() }]),
        Some(b"see other".to_vec()),
    )
    .unwrap()
    .unwrap();
    assert_eq!(rec, sample_response());
}

#[test]
fn status_below_range_is_rejected() {
    let r = claim_state_from_row(Some(99), Some(Vec::new()), Some(Vec::new()));
    assert!(matches!(r, Err(RowDecodeError::StatusOutOfRange)));
}

#[test]
fn status_above_range_is_rejected() {
    let r = claim_state_from_row(Some(600), Some(Vec::new()), Some(Vec::new()));
    assert!(matches!(r, Err(RowDecodeError::StatusOutOfRange)));
}

#[test]
fn negative_status_is_rejected() {
    let r = claim_state_from_row(Some(-1), Some(Vec::new()), Some(Vec::new()));
    assert!(matches!(r, Err(RowDecodeError::StatusOutOfRange)));
}

#[test]
fn partially_null_row_is_rejected() {
    let r = claim_state_from_row(Some(200), None, Some(Vec::new()));
    assert!(matches!(r, Err(RowDecodeError::PartialRow)));
    let r = claim_state_from_row(None, Some(Vec::new()), None);
    assert!(matches!(r, Err(RowDecodeError::PartialRow)));
}

#[test]
fn row_round_trip_preserves_record() {
    let (status, headers, body) = sample_response().into_row();
    assert_eq!(status, 303);
    let rec = claim_state_from_row(Some(status), Some(headers), Some(body)).unwrap().unwrap();
    assert_eq!(rec, sample_response());
}

#[test]
fn conflict_with_recorded_response_replays_it() {
    let r = next_action_after_conflict(Some(sample_response()));
    match r {
        Ok(NextAction::ReturnSavedResponse(rec)) => assert_eq!(rec, sample_response()),
        other => panic!("expected a saved response, got {:?}", other),
    }
}

#[test]
fn conflict_without_response_is_in_progress() {
    let r = next_action_after_conflict(None);
    assert!(matches!(r, Err(TryBeginError::ProcessingInProgress)));
}
