//! The processing state machine exposed to callers: `try_begin` / `complete`.
//!
//! Per `(owner, key)` pair the states are: unclaimed (no record), in flight
//! (record without a response), completed (record with a response). The
//! transitions are monotone and irreversible; there is no path back to
//! unclaimed.
//!
//! A caller first calls [`try_begin`]. Winning the claim race obliges the
//! caller to perform the action and then call [`complete`] exactly once; a
//! completed pair is replayed verbatim. Losing the race while the winner is
//! still in flight fails fast with [`TryBeginError::ProcessingInProgress`], a
//! transient condition the client is expected to retry later.
//!
//! Both operations' contracts are stated through explicit transition
//! relations, [`try_begin_transition`] and [`complete_transition`], so that
//! global guarantees can be proved over whole call traces (see [`crate::laws`]).
//!
//! A deliberate scope boundary: if the winner never calls [`complete`] — its
//! action failed, or its request was cancelled — the pair stays in flight
//! forever. No timeout-based reclaiming is offered here.

use crate::idempotency_key::IdempotencyKey;
use crate::response::{ResponseRecord, ResponseRecordView};
use crate::store::{
    ClaimEntry, ClaimState, ClaimStateView, ClaimStore, InsertOutcome, OwnerId, StoreError,
};
use vstd::prelude::*;
use vstd::pervasive::unreached;

verus! {

/// What the caller of [`try_begin`] must do next.
#[derive(Debug)]
pub enum NextAction {
    /// The caller won the race: perform the action, then call [`complete`].
    StartProcessing,
    /// A recorded response exists: return it verbatim, do not re-execute.
    ReturnSavedResponse(ResponseRecord),
}

/// The mathematical shape of a [`NextAction`].
pub enum NextActionView {
    StartProcessing,
    ReturnSavedResponse(ResponseRecordView),
}

impl View for NextAction {
    type V = NextActionView;

    open spec fn view(&self) -> NextActionView {
        match self {
            NextAction::StartProcessing => NextActionView::StartProcessing,
            NextAction::ReturnSavedResponse(r) => NextActionView::ReturnSavedResponse(r@),
        }
    }
}

/// The transient condition surfaced to a caller that lost the claim race
/// while the winner has not completed yet.
#[derive(Debug, Clone, Copy, PartialEq, Eq, Structural)]
pub enum TryBeginError {
    /// Another caller holds the claim and its action is still in flight.
    ProcessingInProgress,
}

/// The view of a [`try_begin`] result.
pub open spec fn try_begin_result_view(r: Result<NextAction, TryBeginError>) -> Result<
    NextActionView,
    TryBeginError,
> {
    match r {
        Ok(a) => Ok(a@),
        Err(e) => Err(e),
    }
}

/// Everything [`try_begin`] does, as a relation between the claim table
/// before and after the call: an unclaimed pair is claimed in flight and the
/// caller starts processing; a claimed pair is left unchanged and the caller
/// is told to replay the recorded response, or to retry later while the
/// winner is still in flight.
pub open spec fn try_begin_transition(
    pre: Map<(OwnerId, Seq<char>), ClaimEntry>,
    post: Map<(OwnerId, Seq<char>), ClaimEntry>,
    owner: OwnerId,
    key: Seq<char>,
    now: u64,
    r: Result<NextActionView, TryBeginError>,
) -> bool {
    let p = (owner, key);
    if !pre.contains_key(p) {
        &&& post == pre.insert(p, (ClaimEntry { created_at: now, state: ClaimStateView::InFlight }))
        &&& r == Ok::<NextActionView, TryBeginError>(NextActionView::StartProcessing)
    } else {
        &&& post == pre
        &&& match pre[p].state {
            ClaimStateView::InFlight => r == Err::<NextActionView, TryBeginError>(
                TryBeginError::ProcessingInProgress,
            ),
            ClaimStateView::Completed(resp) => r == Ok::<NextActionView, TryBeginError>(
                NextActionView::ReturnSavedResponse(resp),
            ),
        }
    }
}

/// Everything [`complete`] does, as a relation between the claim table before
/// and after the call: the in-flight record of the pair receives the response
/// (the write-once transition); completing a pair that has no record or that
/// already carries a response is rejected and changes nothing.
pub open spec fn complete_transition(
    pre: Map<(OwnerId, Seq<char>), ClaimEntry>,
    post: Map<(OwnerId, Seq<char>), ClaimEntry>,
    owner: OwnerId,
    key: Seq<char>,
    response: ResponseRecordView,
    r: Result<(), StoreError>,
) -> bool {
    let p = (owner, key);
    if !pre.contains_key(p) {
        &&& post == pre
        &&& r == Err::<(), StoreError>(StoreError::ClaimNotFound)
    } else {
        match pre[p].state {
            ClaimStateView::InFlight => {
                &&& post == pre.insert(
                    p,
                    (ClaimEntry {
                        created_at: pre[p].created_at,
                        state: ClaimStateView::Completed(response),
                    }),
                )
                &&& r == Ok::<(), StoreError>(())
            },
            ClaimStateView::Completed(_) => {
                &&& post == pre
                &&& r == Err::<(), StoreError>(StoreError::AlreadyCompleted)
            },
        }
    }
}

/// Claims `(owner, key)` or replays its recorded response.
///
/// `now` is the creation timestamp recorded if this call claims the pair; the
/// clock belongs to the caller's environment, not to the engine.
pub fn try_begin(store: &mut ClaimStore, owner: OwnerId, key: &IdempotencyKey, now: u64) -> (r:
    Result<NextAction, TryBeginError>)
    requires
        old(store).wf(),
    ensures
        final(store).wf(),
        try_begin_transition(old(store)@, final(store)@, owner, key@, now, try_begin_result_view(r)),
{
    match store.insert_claim(owner, key, now) {
        InsertOutcome::Inserted => Ok(NextAction::StartProcessing),
        InsertOutcome::AlreadyExists => match store.fetch_record(owner, key) {
            Some(rec) => match &rec.state {
                ClaimState::InFlight => Err(TryBeginError::ProcessingInProgress),
                ClaimState::Completed(resp) => Ok(NextAction::ReturnSavedResponse(resp.clone())),
            },
            None => unreached(),
        },
    }
}

/// Records the response of the action for `(owner, key)`.
///
/// Must be called exactly once, by the caller that received
/// [`NextAction::StartProcessing`] for the pair, after the action has fully
/// and successfully run. Any other call is a contract violation and is
/// rejected loudly (see [`StoreError`]) without touching the table.
pub fn complete(
    store: &mut ClaimStore,
    owner: OwnerId,
    key: &IdempotencyKey,
    response: ResponseRecord,
) -> (r: Result<(), StoreError>)
    requires
        old(store).wf(),
        response.wf(),
    ensures
        final(store).wf(),
        complete_transition(old(store)@, final(store)@, owner, key@, response@, r),
{
    let r = store.complete_claim(owner, key, response);
    proof {
        // Name the success value, so the store's contract applies to `r`.
        match r {
            Ok(u) => assert(r == Ok::<(), StoreError>(u)),
            Err(_) => {},
        }
    }
    r
}

/// The decision a caller makes after losing the claim race, given the
/// response column of the record it then fetched: a recorded response is
/// replayed; a still-missing one means the winner is in flight, so fail fast.
pub fn next_action_after_conflict(response: Option<ResponseRecord>) -> (r: Result<
    NextAction,
    TryBeginError,
>)
    ensures
        match response {
            Some(resp) => try_begin_result_view(r) == Ok::<NextActionView, TryBeginError>(
                NextActionView::ReturnSavedResponse(resp@),
            ),
            None => r == Err::<NextAction, TryBeginError>(TryBeginError::ProcessingInProgress),
        },
{
    match response {
        Some(resp) => Ok(NextAction::ReturnSavedResponse(resp)),
        None => Err(TryBeginError::ProcessingInProgress),
    }
}

} // verus!
