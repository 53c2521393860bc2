//! The engine's global guarantees, proved over whole call traces.
//!
//! The durable store's uniqueness constraint total-orders racing calls on one
//! `(owner, key)` pair, so any concurrent history on a pair is some
//! serialization: a sequence of [`StoreEvent`]s, each related to the claim
//! table before and after it by the transition relations of
//! [`crate::coordinator`]. The lemmas here quantify over every such trace:
//!
//! - a pair is claimed by at most one `try_begin`, and by the first one to
//!   run when the pair starts unclaimed (single winner);
//! - once a response is recorded, every later `try_begin` on the pair replays
//!   exactly that response and changes nothing (replay fidelity);
//! - no operation on one pair touches any other pair, whether the keys differ
//!   under one owner or the owners differ over one key (isolation).

use crate::coordinator::{
    complete_transition, try_begin_transition, NextActionView, TryBeginError,
};
use crate::response::ResponseRecordView;
use crate::store::{ClaimEntry, ClaimStateView, OwnerId, StoreError};
use vstd::prelude::*;

verus! {

/// The engine's abstract state: the claim table contents.
pub type StoreContents = Map<(OwnerId, Seq<char>), ClaimEntry>;

/// One serialized engine call on a fixed pair, with its observed outcome.
pub enum StoreEvent {
    TryBegin { now: u64, outcome: Result<NextActionView, TryBeginError> },
    Complete { response: ResponseRecordView, result: Result<(), StoreError> },
}

/// Whether `ev` takes the claim table from `pre` to `post` on the given pair.
pub open spec fn event_transition(
    pre: StoreContents,
    post: StoreContents,
    owner: OwnerId,
    key: Seq<char>,
    ev: StoreEvent,
) -> bool {
    match ev {
        StoreEvent::TryBegin { now, outcome } => try_begin_transition(
            pre,
            post,
            owner,
            key,
            now,
            outcome,
        ),
        StoreEvent::Complete { response, result } => complete_transition(
            pre,
            post,
            owner,
            key,
            response,
            result,
        ),
    }
}

/// Whether `states` is the sequence of claim tables that `events` steps
/// through on the given pair: one state more than events, each consecutive
/// state pair related by its event.
pub open spec fn is_trace(
    states: Seq<StoreContents>,
    events: Seq<StoreEvent>,
    owner: OwnerId,
    key: Seq<char>,
) -> bool {
    &&& states.len() == events.len() + 1
    &&& forall|i: int|
        0 <= i < events.len() ==> event_transition(
            states[i],
            states[i + 1],
            owner,
            key,
            #[trigger] events[i],
        )
}

/// Whether an event is a `try_begin` that won the claim race.
pub open spec fn won_start(ev: StoreEvent) -> bool {
    match ev {
        StoreEvent::TryBegin { outcome, .. } => outcome == Ok::<NextActionView, TryBeginError>(
            NextActionView::StartProcessing,
        ),
        StoreEvent::Complete { .. } => false,
    }
}

/// The outcome a `try_begin` event observed.
pub open spec fn try_begin_outcome(ev: StoreEvent) -> Result<NextActionView, TryBeginError>
    recommends
        ev is TryBegin,
{
    match ev {
        StoreEvent::TryBegin { outcome, .. } => outcome,
        StoreEvent::Complete { .. } => arbitrary(),
    }
}

/// Law (no path back to unclaimed): a pair once claimed stays claimed — no
/// event in any trace removes its record.
pub proof fn lemma_presence_monotone(
    states: Seq<StoreContents>,
    events: Seq<StoreEvent>,
    owner: OwnerId,
    key: Seq<char>,
    k: int,
    j: int,
)
    requires
        is_trace(states, events, owner, key),
        0 <= k <= j < states.len(),
        states[k].contains_key((owner, key)),
    ensures
        states[j].contains_key((owner, key)),
    decreases j - k,
{
    if j > k {
        lemma_presence_monotone(states, events, owner, key, k, j - 1);
        assert(event_transition(states[j - 1], states[j], owner, key, events[j - 1]));
    }
}

/// Law (write-once): once a pair's record carries a response, no event in any
/// trace ever changes that record again.
pub proof fn lemma_completed_stable(
    states: Seq<StoreContents>,
    events: Seq<StoreEvent>,
    owner: OwnerId,
    key: Seq<char>,
    response: ResponseRecordView,
    k: int,
    j: int,
)
    requires
        is_trace(states, events, owner, key),
        0 <= k <= j < states.len(),
        states[k].contains_key((owner, key)),
        states[k][(owner, key)].state == ClaimStateView::Completed(response),
    ensures
        states[j].contains_key((owner, key)),
        states[j][(owner, key)].state == ClaimStateView::Completed(response),
        states[j][(owner, key)] == states[k][(owner, key)],
    decreases j - k,
{
    if j > k {
        lemma_completed_stable(states, events, owner, key, response, k, j - 1);
        assert(event_transition(states[j - 1], states[j], owner, key, events[j - 1]));
    }
}

/// Law (single winner): on one pair, at most one `try_begin` in a trace wins
/// the claim race, however many callers race and however their calls
/// interleave with `complete` calls.
pub proof fn lemma_single_winner(
    states: Seq<StoreContents>,
    events: Seq<StoreEvent>,
    owner: OwnerId,
    key: Seq<char>,
    i: int,
    j: int,
)
    requires
        is_trace(states, events, owner, key),
        0 <= i < j < events.len(),
        won_start(events[i]),
    ensures
        !won_start(events[j]),
{
    assert(event_transition(states[i], states[i + 1], owner, key, events[i]));
    assert(states[i + 1].contains_key((owner, key)));
    lemma_presence_monotone(states, events, owner, key, i + 1, j);
    assert(event_transition(states[j], states[j + 1], owner, key, events[j]));
}

/// Law (single winner, existence half): a `try_begin` on an unclaimed pair
/// always wins — so of N racing calls, exactly the first to be serialized
/// observes `StartProcessing`.
pub proof fn lemma_first_caller_wins(
    pre: StoreContents,
    post: StoreContents,
    owner: OwnerId,
    key: Seq<char>,
    now: u64,
    r: Result<NextActionView, TryBeginError>,
)
    requires
        !pre.contains_key((owner, key)),
        try_begin_transition(pre, post, owner, key, now, r),
    ensures
        r == Ok::<NextActionView, TryBeginError>(NextActionView::StartProcessing),
{
}

/// Law (replay fidelity): after a successful `complete` with response `r`,
/// every later `try_begin` on the pair returns `ReturnSavedResponse(r)` —
/// the same status, header order and values, and body — and leaves the claim
/// table unchanged, arbitrarily many times.
pub proof fn lemma_replay_fidelity(
    states: Seq<StoreContents>,
    events: Seq<StoreEvent>,
    owner: OwnerId,
    key: Seq<char>,
    response: ResponseRecordView,
    k: int,
    j: int,
)
    requires
        is_trace(states, events, owner, key),
        0 <= k < j < events.len(),
        events[k] == (StoreEvent::Complete {
            response,
            result: Ok::<(), StoreError>(()),
        }),
        events[j] is TryBegin,
    ensures
        try_begin_outcome(events[j]) == Ok::<NextActionView, TryBeginError>(
            NextActionView::ReturnSavedResponse(response),
        ),
        states[j + 1] == states[j],
{
    assert(event_transition(states[k], states[k + 1], owner, key, events[k]));
    assert(states[k + 1][(owner, key)].state == ClaimStateView::Completed(response));
    lemma_completed_stable(states, events, owner, key, response, k + 1, j);
    assert(event_transition(states[j], states[j + 1], owner, key, events[j]));
}

/// Law (isolation): an operation on one pair touches no other pair — other
/// keys of the same owner and the same key under other owners both keep their
/// absence, presence, and recorded state.
pub proof fn lemma_pair_isolation(
    pre: StoreContents,
    post: StoreContents,
    owner: OwnerId,
    key: Seq<char>,
    ev: StoreEvent,
    other: (OwnerId, Seq<char>),
)
    requires
        event_transition(pre, post, owner, key, ev),
        other != (owner, key),
    ensures
        post.contains_key(other) == pre.contains_key(other),
        pre.contains_key(other) ==> post[other] == pre[other],
{
}

/// Law (key isolation): two `try_begin` calls by one owner on two different
/// unclaimed keys both win their own race.
pub proof fn lemma_fresh_keys_both_start(
    s0: StoreContents,
    s1: StoreContents,
    s2: StoreContents,
    owner: OwnerId,
    key_a: Seq<char>,
    key_b: Seq<char>,
    now_a: u64,
    now_b: u64,
    r_a: Result<NextActionView, TryBeginError>,
    r_b: Result<NextActionView, TryBeginError>,
)
    requires
        key_a != key_b,
        !s0.contains_key((owner, key_a)),
        !s0.contains_key((owner, key_b)),
        try_begin_transition(s0, s1, owner, key_a, now_a, r_a),
        try_begin_transition(s1, s2, owner, key_b, now_b, r_b),
    ensures
        r_a == Ok::<NextActionView, TryBeginError>(NextActionView::StartProcessing),
        r_b == Ok::<NextActionView, TryBeginError>(NextActionView::StartProcessing),
{
    lemma_first_caller_wins(s0, s1, owner, key_a, now_a, r_a);
    assert(!s1.contains_key((owner, key_b)));
    lemma_first_caller_wins(s1, s2, owner, key_b, now_b, r_b);
}

/// Law (owner isolation): one key claimed under two different owners behaves
/// as two independent claims — two `try_begin` calls on the unclaimed pairs
/// both win their own race.
pub proof fn lemma_distinct_owners_both_start(
    s0: StoreContents,
    s1: StoreContents,
    s2: StoreContents,
    owner_a: OwnerId,
    owner_b: OwnerId,
    key: Seq<char>,
    now_a: u64,
    now_b: u64,
    r_a: Result<NextActionView, TryBeginError>,
    r_b: Result<NextActionView, TryBeginError>,
)
    requires
        owner_a != owner_b,
        !s0.contains_key((owner_a, key)),
        !s0.contains_key((owner_b, key)),
        try_begin_transition(s0, s1, owner_a, key, now_a, r_a),
        try_begin_transition(s1, s2, owner_b, key, now_b, r_b),
    ensures
        r_a == Ok::<NextActionView, TryBeginError>(NextActionView::StartProcessing),
        r_b == Ok::<NextActionView, TryBeginError>(NextActionView::StartProcessing),
{
    lemma_first_caller_wins(s0, s1, owner_a, key, now_a, r_a);
    assert(!s1.contains_key((owner_b, key)));
    lemma_first_caller_wins(s1, s2, owner_b, key, now_b, r_b);
}

} // verus!
