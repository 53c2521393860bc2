//! The replayable response shape and its stored-row codec.
//!
//! A completed claim carries a [`ResponseRecord`]: status code, an *ordered*
//! list of header pairs, and a body. Header order is part of the recorded
//! artifact and is preserved on replay. The durable table stores a record as
//! three nullable columns (status, headers, body); [`claim_state_from_row`]
//! rebuilds the in-flight/completed state from such a row and
//! [`ResponseRecord::into_row`] takes a record apart for writing.

use vstd::prelude::*;

verus! {

/// One recorded response header: a name and a value byte-sequence.
#[derive(Debug, PartialEq, Eq)]
pub struct HeaderPair {
    pub name: String,
    pub value: Vec<u8>,
}

/// The mathematical shape of a header pair.
pub struct HeaderPairView {
    pub name: Seq<char>,
    pub value: Seq<u8>,
}

impl View for HeaderPair {
    type V = HeaderPairView;

    open spec fn view(&self) -> HeaderPairView {
        HeaderPairView { name: self.name@, value: self.value@ }
    }
}

impl Clone for HeaderPair {
    fn clone(&self) -> (r: Self)
        ensures
            r@ == self@,
    {
        HeaderPair { name: self.name.clone(), value: copy_bytes(&self.value) }
    }
}

/// A recorded status code must lie in `[100, 599]`.
pub open spec fn valid_status(status: u16) -> bool {
    100 <= status <= 599
}

/// A replayable response: status, ordered headers, body.
/// Immutable once stored; replayed verbatim.
#[derive(Debug, PartialEq, Eq)]
pub struct ResponseRecord {
    pub status_code: u16,
    pub headers: Vec<HeaderPair>,
    pub body: Vec<u8>,
}

/// The mathematical shape of a response record.
pub struct ResponseRecordView {
    pub status_code: u16,
    pub headers: Seq<HeaderPairView>,
    pub body: Seq<u8>,
}

/// The views of a sequence of header pairs, in the same order.
pub open spec fn headers_view(headers: Seq<HeaderPair>) -> Seq<HeaderPairView> {
    headers.map_values(|h: HeaderPair| h@)
}

impl View for ResponseRecord {
    type V = ResponseRecordView;

    open spec fn view(&self) -> ResponseRecordView {
        ResponseRecordView {
            status_code: self.status_code,
            headers: headers_view(self.headers@),
            body: self.body@,
        }
    }
}

impl ResponseRecord {
    /// A record is well formed when its status code is in `[100, 599]`.
    pub open spec fn wf(&self) -> bool {
        valid_status(self.status_code)
    }

    /// Takes the record apart into the three stored columns.
    pub fn into_row(self) -> (r: (i16, Vec<HeaderPair>, Vec<u8>))
        requires
            self.wf(),
        ensures
            r.0 == self.status_code as i16,
            r.1 == self.headers,
            r.2 == self.body,
    {
        (self.status_code as i16, self.headers, self.body)
    }
}

impl Clone for ResponseRecord {
    fn clone(&self) -> (r: Self)
        ensures
            r@ == self@,
    {
        let mut headers: Vec<HeaderPair> = Vec::new();
        let mut i: usize = 0;
        while i < self.headers.len()
            invariant
                i <= self.headers.len(),
                headers@.len() == i as int,
                forall|j: int| 0 <= j < i ==> headers@[j]@ == self.headers@[j]@,
            decreases self.headers.len() - i,
        {
            headers.push(self.headers[i].clone());
            i = i + 1;
        }
        let r = ResponseRecord {
            status_code: self.status_code,
            headers,
            body: copy_bytes(&self.body),
        };
        proof {
            assert(headers_view(r.headers@) =~= headers_view(self.headers@));
        }
        r
    }
}

/// Copies a byte vector, preserving its contents exactly.
fn copy_bytes(v: &Vec<u8>) -> (r: Vec<u8>)
    ensures
        r@ == v@,
{
    let mut r: Vec<u8> = Vec::new();
    let mut i: usize = 0;
    while i < v.len()
        invariant
            i <= v.len(),
            r@ == v@.subrange(0, i as int),
        decreases v.len() - i,
    {
        r.push(v[i]);
        i = i + 1;
    }
    proof {
        assert(r@ =~= v@);
    }
    r
}

/// Why a stored row could not be rebuilt into a claim state.
#[derive(Debug, Clone, Copy, PartialEq, Eq, Structural)]
pub enum RowDecodeError {
    /// The stored status code lies outside `[100, 599]`.
    StatusOutOfRange,
    /// Some of the three response columns are set and some are not.
    PartialRow,
}

/// What a stored row denotes: `Ok(None)` when all three response columns are
/// null (claimed, action in flight), `Ok(Some(record))` when all three are set
/// and the status is in range, and an error otherwise.
pub open spec fn decode_row(
    status: Option<i16>,
    headers: Option<Seq<HeaderPairView>>,
    body: Option<Seq<u8>>,
) -> Result<Option<ResponseRecordView>, RowDecodeError> {
    match (status, headers, body) {
        (None, None, None) => Ok(None),
        (Some(s), Some(h), Some(b)) => {
            if 100 <= s <= 599 {
                Ok(Some(ResponseRecordView { status_code: s as u16, headers: h, body: b }))
            } else {
                Err(RowDecodeError::StatusOutOfRange)
            }
        },
        _ => Err(RowDecodeError::PartialRow),
    }
}

/// The view of a decoded row result.
pub open spec fn row_result_view(r: Result<Option<ResponseRecord>, RowDecodeError>) -> Result<
    Option<ResponseRecordView>,
    RowDecodeError,
> {
    match r {
        Ok(Some(rec)) => Ok(Some(rec@)),
        Ok(None) => Ok(None),
        Err(e) => Err(e),
    }
}

/// The view of an optional header column.
pub open spec fn opt_headers_view(h: Option<Vec<HeaderPair>>) -> Option<Seq<HeaderPairView>> {
    match h {
        Some(v) => Some(headers_view(v@)),
        None => None,
    }
}

/// The view of an optional byte column.
pub open spec fn opt_bytes_view(b: Option<Vec<u8>>) -> Option<Seq<u8>> {
    match b {
        Some(v) => Some(v@),
        None => None,
    }
}

/// Rebuilds the stored claim state from the three nullable response columns
/// of a row: all null means the claim is in flight, all set means completed.
pub fn claim_state_from_row(
    status: Option<i16>,
    headers: Option<Vec<HeaderPair>>,
    body: Option<Vec<u8>>,
) -> (r: Result<Option<ResponseRecord>, RowDecodeError>)
    ensures
        row_result_view(r) == decode_row(status, opt_headers_view(headers), opt_bytes_view(body)),
{
    match (status, headers, body) {
        (None, None, None) => Ok(None),
        (Some(s), Some(h), Some(b)) => {
            if 100 <= s && s <= 599 {
                Ok(Some(ResponseRecord { status_code: s as u16, headers: h, body: b }))
            } else {
                Err(RowDecodeError::StatusOutOfRange)
            }
        },
        _ => Err(RowDecodeError::PartialRow),
    }
}

/// Writing a well-formed record out as a row and reading the row back yields
/// the record unchanged — replay through the durable table is verbatim.
pub proof fn lemma_row_round_trip(v: ResponseRecordView)
    requires
        valid_status(v.status_code),
    ensures
        decode_row(Some(v.status_code as i16), Some(v.headers), Some(v.body)) == Ok::<
            Option<ResponseRecordView>,
            RowDecodeError,
        >(Some(v)),
{
    assert((v.status_code as i16) as u16 == v.status_code);
}

} // verus!
