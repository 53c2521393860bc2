//! The claim table: one record per `(owner, key)` pair, write-once.
//!
//! [`ClaimStore`] owns every [`ClaimRecord`]. The pair `(owner_id, key)` is
//! unique across all records — that uniqueness is the sole concurrency-control
//! primitive: under racing identical requests exactly one caller observes
//! [`InsertOutcome::Inserted`] and all others observe
//! [`InsertOutcome::AlreadyExists`]. A record is created in the in-flight
//! state and is updated exactly once, to the completed state; records are
//! never deleted (retention is out of scope here).
//!
//! The store's abstract value is a map from `(owner, key)` pairs to
//! [`ClaimEntry`] values, and every operation's contract is stated as a map
//! update, so callers reason about the table without seeing its layout.

use crate::idempotency_key::IdempotencyKey;
use crate::response::{valid_status, ResponseRecord, ResponseRecordView};
use vstd::prelude::*;

verus! {

/// The already-authenticated caller identity, as established by the session
/// gate upstream of this engine. Opaque here: the engine only compares it.
#[derive(Debug, Clone, Copy, PartialEq, Eq, Hash, Structural)]
pub struct OwnerId(pub u128);

/// The processing state recorded for a claimed pair.
#[derive(Debug)]
pub enum ClaimState {
    /// Claimed, action in flight, result not yet known.
    InFlight,
    /// Completed; replay the recorded response verbatim.
    Completed(ResponseRecord),
}

/// The mathematical shape of a claim state.
pub enum ClaimStateView {
    InFlight,
    Completed(ResponseRecordView),
}

impl View for ClaimState {
    type V = ClaimStateView;

    open spec fn view(&self) -> ClaimStateView {
        match self {
            ClaimState::InFlight => ClaimStateView::InFlight,
            ClaimState::Completed(r) => ClaimStateView::Completed(r@),
        }
    }
}

/// One persisted row of the claim table.
#[derive(Debug)]
pub struct ClaimRecord {
    pub owner_id: OwnerId,
    pub key: IdempotencyKey,
    pub created_at: u64,
    pub state: ClaimState,
}

/// What the store records about one claimed pair: everything of a
/// [`ClaimRecord`] except the pair itself, which is the map key.
pub struct ClaimEntry {
    pub created_at: u64,
    pub state: ClaimStateView,
}

/// The entry a record denotes.
pub open spec fn entry_of(r: ClaimRecord) -> ClaimEntry {
    ClaimEntry { created_at: r.created_at, state: r.state@ }
}

/// Whether a record belongs to the given pair.
pub open spec fn is_pair(r: ClaimRecord, owner: OwnerId, key: Seq<char>) -> bool {
    r.owner_id == owner && r.key@ == key
}

/// Whether some record of `s` belongs to the given pair.
spec fn has_pair(s: Seq<ClaimRecord>, owner: OwnerId, key: Seq<char>) -> bool {
    exists|i: int| 0 <= i < s.len() && #[trigger] is_pair(s[i], owner, key)
}

/// The index of the record of the given pair (meaningful under uniqueness).
spec fn pair_index(s: Seq<ClaimRecord>, owner: OwnerId, key: Seq<char>) -> int {
    choose|i: int| 0 <= i < s.len() && #[trigger] is_pair(s[i], owner, key)
}

/// No two records of `s` belong to the same pair.
spec fn unique_pairs(s: Seq<ClaimRecord>) -> bool {
    forall|i: int, j: int| #![trigger s[i], s[j]]
        0 <= i < j < s.len() ==> !is_pair(s[j], s[i].owner_id, s[i].key@)
}

/// Every completed record of `s` carries a valid status code.
spec fn states_wf(s: Seq<ClaimRecord>) -> bool {
    forall|i: int|
        0 <= i < s.len() ==> match (#[trigger] s[i]).state@ {
            ClaimStateView::InFlight => true,
            ClaimStateView::Completed(r) => valid_status(r.status_code),
        }
}

proof fn lemma_unique_pair_index(s: Seq<ClaimRecord>, owner: OwnerId, key: Seq<char>, i: int)
    requires
        unique_pairs(s),
        0 <= i < s.len(),
        is_pair(s[i], owner, key),
    ensures
        has_pair(s, owner, key),
        pair_index(s, owner, key) == i,
{
    assert(has_pair(s, owner, key));
    let j = pair_index(s, owner, key);
    if j < i {
        assert(!is_pair(s[i], s[j].owner_id, s[j].key@));
    } else if i < j {
        assert(!is_pair(s[j], s[i].owner_id, s[i].key@));
    }
}

/// What `insert_claim` observed: either this caller created the record, or a
/// record for the pair already existed.
#[derive(Debug, Clone, Copy, PartialEq, Eq, Structural)]
pub enum InsertOutcome {
    Inserted,
    AlreadyExists,
}

/// Why a `complete_claim` call was rejected. Both variants mark a caller
/// contract violation: completing a pair that is not in flight.
#[derive(Debug, Clone, Copy, PartialEq, Eq, Structural)]
pub enum StoreError {
    /// No record exists for the pair.
    ClaimNotFound,
    /// The record for the pair already carries a response.
    AlreadyCompleted,
}

/// The claim table.
pub struct ClaimStore {
    records: Vec<ClaimRecord>,
}

impl View for ClaimStore {
    type V = Map<(OwnerId, Seq<char>), ClaimEntry>;

    closed spec fn view(&self) -> Map<(OwnerId, Seq<char>), ClaimEntry> {
        Map::new(
            |p: (OwnerId, Seq<char>)| has_pair(self.records@, p.0, p.1),
            |p: (OwnerId, Seq<char>)| entry_of(self.records@[pair_index(self.records@, p.0, p.1)]),
        )
    }
}

impl ClaimStore {
    /// The store's internal invariant: pair uniqueness, and a valid status on
    /// every completed record. Established by [`ClaimStore::new`] and
    /// preserved by every operation.
    pub closed spec fn wf(self) -> bool {
        unique_pairs(self.records@) && states_wf(self.records@)
    }

    /// An empty claim table.
    pub fn new() -> (r: ClaimStore)
        ensures
            r.wf(),
            r@ == Map::<(OwnerId, Seq<char>), ClaimEntry>::empty(),
    {
        let r = ClaimStore { records: Vec::new() };
        proof {
            assert(r@ =~= Map::<(OwnerId, Seq<char>), ClaimEntry>::empty());
        }
        r
    }

    fn find_index(&self, owner: OwnerId, key: &IdempotencyKey) -> (r: Option<usize>)
        ensures
            match r {
                Some(i) => i < self.records@.len() && is_pair(self.records@[i as int], owner, key@),
                None => forall|i: int|
                    0 <= i < self.records@.len() ==> !is_pair(#[trigger] self.records@[i], owner, key@),
            },
    {
        let mut i: usize = 0;
        while i < self.records.len()
            invariant
                i <= self.records.len(),
                forall|j: int| 0 <= j < i ==> !is_pair(#[trigger] self.records@[j], owner, key@),
            decreases self.records.len() - i,
        {
            let rec = &self.records[i];
            if rec.owner_id == owner && rec.key.key_eq(key) {
                return Some(i);
            }
            i = i + 1;
        }
        None
    }

    /// Attempts to atomically create the record for `(owner, key)` in the
    /// in-flight state. Exactly one of racing identical calls observes
    /// `Inserted`; every other observes `AlreadyExists` and changes nothing.
    pub fn insert_claim(&mut self, owner: OwnerId, key: &IdempotencyKey, created_at: u64) -> (r:
        InsertOutcome)
        requires
            old(self).wf(),
        ensures
            final(self).wf(),
            match r {
                InsertOutcome::Inserted => !old(self)@.contains_key((owner, key@)) && final(self)@
                    == old(self)@.insert(
                    (owner, key@),
                    (ClaimEntry { created_at, state: ClaimStateView::InFlight }),
                ),
                InsertOutcome::AlreadyExists => old(self)@.contains_key((owner, key@))
                    && final(self)@ == old(self)@,
            },
    {
        let ghost s0 = self.records@;
        let ghost m0 = self@;
        match self.find_index(owner, key) {
            Some(_) => {
                proof {
                    assert(m0.contains_key((owner, key@)));
                }
                InsertOutcome::AlreadyExists
            },
            None => {
                let rec = ClaimRecord {
                    owner_id: owner,
                    key: key.clone(),
                    created_at,
                    state: ClaimState::InFlight,
                };
                self.records.push(rec);
                proof {
                    let p = (owner, key@);
                    let entry = ClaimEntry { created_at, state: ClaimStateView::InFlight };
                    let s1 = self.records@;
                    let n = s0.len() as int;
                    assert(is_pair(s1[n], owner, key@));
                    assert forall|i: int, j: int| 0 <= i < j < s1.len() implies !is_pair(
                        s1[j],
                        s1[i].owner_id,
                        s1[i].key@,
                    ) by {
                        if j < n {
                            assert(!is_pair(s0[j], s0[i].owner_id, s0[i].key@));
                        } else {
                            assert(!is_pair(s0[i], owner, key@));
                        }
                    }
                    assert(states_wf(s1));
                    lemma_unique_pair_index(s1, owner, key@, n);
                    let m1 = self@;
                    assert forall|q: (OwnerId, Seq<char>)| #[trigger] m1.contains_key(q)
                        == m0.insert(p, entry).contains_key(q) by {
                        if q != p {
                            if has_pair(s1, q.0, q.1) {
                                let i = choose|i: int|
                                    0 <= i < s1.len() && #[trigger] is_pair(s1[i], q.0, q.1);
                                assert(i < n);
                                assert(is_pair(s0[i], q.0, q.1));
                            }
                            if has_pair(s0, q.0, q.1) {
                                let i = choose|i: int|
                                    0 <= i < s0.len() && #[trigger] is_pair(s0[i], q.0, q.1);
                                assert(is_pair(s1[i], q.0, q.1));
                            }
                        }
                    }
                    assert forall|q: (OwnerId, Seq<char>)| #[trigger] m1.contains_key(q) implies m1[q]
                        == m0.insert(p, entry)[q] by {
                        if q == p {
                            assert(m1[q] == entry_of(s1[n]));
                        } else {
                            let i = choose|i: int|
                                0 <= i < s1.len() && #[trigger] is_pair(s1[i], q.0, q.1);
                            assert(i < n);
                            assert(is_pair(s0[i], q.0, q.1));
                            lemma_unique_pair_index(s1, q.0, q.1, i);
                            lemma_unique_pair_index(s0, q.0, q.1, i);
                        }
                    }
                    assert(m1 =~= m0.insert(p, entry));
                }
                InsertOutcome::Inserted
            },
        }
    }

    /// Read-only lookup of the record for `(owner, key)`.
    pub fn fetch_record(&self, owner: OwnerId, key: &IdempotencyKey) -> (r: Option<&ClaimRecord>)
        requires
            self.wf(),
        ensures
            match r {
                Some(rec) => self@.contains_key((owner, key@)) && rec.owner_id == owner && rec.key@
                    == key@ && entry_of(*rec) == self@[(owner, key@)],
                None => !self@.contains_key((owner, key@)),
            },
    {
        match self.find_index(owner, key) {
            Some(i) => {
                proof {
                    lemma_unique_pair_index(self.records@, owner, key@, i as int);
                }
                Some(&self.records[i])
            },
            None => None,
        }
    }

    /// Atomically sets the response on the in-flight record for `(owner,
    /// key)`: the write-once `InFlight -> Completed` transition. Completing a
    /// pair that has no record, or one that already carries a response, is a
    /// caller contract violation; it is rejected and changes nothing.
    pub fn complete_claim(
        &mut self,
        owner: OwnerId,
        key: &IdempotencyKey,
        response: ResponseRecord,
    ) -> (r: Result<(), StoreError>)
        requires
            old(self).wf(),
            response.wf(),
        ensures
            final(self).wf(),
            match r {
                Ok(()) => old(self)@.contains_key((owner, key@)) && old(self)@[(owner, key@)].state
                    is InFlight && final(self)@ == old(self)@.insert(
                    (owner, key@),
                    (ClaimEntry {
                        created_at: old(self)@[(owner, key@)].created_at,
                        state: ClaimStateView::Completed(response@),
                    }),
                ),
                Err(StoreError::ClaimNotFound) => !old(self)@.contains_key((owner, key@))
                    && final(self)@ == old(self)@,
                Err(StoreError::AlreadyCompleted) => old(self)@.contains_key((owner, key@))
                    && old(self)@[(owner, key@)].state is Completed && final(self)@ == old(self)@,
            },
    {
        let ghost s0 = self.records@;
        let ghost m0 = self@;
        match self.find_index(owner, key) {
            None => Err(StoreError::ClaimNotFound),
            Some(i) => {
                proof {
                    lemma_unique_pair_index(s0, owner, key@, i as int);
                }
                let in_flight = match &self.records[i].state {
                    ClaimState::InFlight => true,
                    ClaimState::Completed(_) => false,
                };
                if !in_flight {
                    return Err(StoreError::AlreadyCompleted);
                }
                let old_rec = self.records.remove(i);
                let new_rec = ClaimRecord {
                    owner_id: old_rec.owner_id,
                    key: old_rec.key,
                    created_at: old_rec.created_at,
                    state: ClaimState::Completed(response),
                };
                self.records.insert(i, new_rec);
                proof {
                    let p = (owner, key@);
                    let entry = ClaimEntry {
                        created_at: s0[i as int].created_at,
                        state: ClaimStateView::Completed(response@),
                    };
                    let s1 = self.records@;
                    assert(s1 =~= s0.update(i as int, new_rec));
                    assert forall|j: int| 0 <= j < s1.len() implies s1[j].owner_id
                        == s0[j].owner_id && s1[j].key@ == s0[j].key@ by {}
                    assert forall|a: int, b: int| 0 <= a < b < s1.len() implies !is_pair(
                        s1[b],
                        s1[a].owner_id,
                        s1[a].key@,
                    ) by {
                        assert(!is_pair(s0[b], s0[a].owner_id, s0[a].key@));
                    }
                    assert(states_wf(s1));
                    lemma_unique_pair_index(s1, owner, key@, i as int);
                    let m1 = self@;
                    assert forall|q: (OwnerId, Seq<char>)| #[trigger] m1.contains_key(q)
                        == m0.insert(p, entry).contains_key(q) by {
                        if q != p {
                            if has_pair(s1, q.0, q.1) {
                                let a = choose|a: int|
                                    0 <= a < s1.len() && #[trigger] is_pair(s1[a], q.0, q.1);
                                assert(is_pair(s0[a], q.0, q.1));
                            }
                            if has_pair(s0, q.0, q.1) {
                                let a = choose|a: int|
                                    0 <= a < s0.len() && #[trigger] is_pair(s0[a], q.0, q.1);
                                assert(a != i);
                                assert(is_pair(s1[a], q.0, q.1));
                            }
                        }
                    }
                    assert forall|q: (OwnerId, Seq<char>)| #[trigger] m1.contains_key(q) implies m1[q]
                        == m0.insert(p, entry)[q] by {
                        if q == p {
                            assert(m1[q] == entry_of(s1[i as int]));
                        } else {
                            let a = choose|a: int|
                                0 <= a < s1.len() && #[trigger] is_pair(s1[a], q.0, q.1);
                            assert(a != i);
                            assert(is_pair(s0[a], q.0, q.1));
                            lemma_unique_pair_index(s1, q.0, q.1, a);
                            lemma_unique_pair_index(s0, q.0, q.1, a);
                            assert(s1[a] == s0[a]);
                        }
                    }
                    assert(m1 =~= m0.insert(p, entry));
                }
                Ok(())
            },
        }
    }
}

} // verus!
