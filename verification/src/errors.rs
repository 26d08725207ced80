//! The failure taxonomy shared by every store backend, and its mapping
//! to transport-level outcome kinds.

use vstd::prelude::*;

verus! {

/// Why a store operation did not complete.
///
/// Every fallible operation of the store reports exactly one of these:
/// `NotFound` when no record exists for the targeted identifier,
/// `Conflict` when a create names an identifier that already exists,
/// `InvalidInput` when a payload fails validation (empty prompt text or
/// a malformed identifier), and `Unavailable` when a backend could not
/// be reached or timed out.
#[derive(Clone, Copy, Debug, PartialEq, Eq, Structural)]
pub enum StoreError {
    NotFound,
    Conflict,
    InvalidInput,
    Unavailable,
}

/// The outcome kind a dispatcher should report for an operation.
///
/// The store never chooses concrete transport status codes; it fixes
/// only the kind of outcome, and the dispatcher picks the matching
/// vocabulary (for HTTP: 200, 404, 409, 400, 503).
#[derive(Clone, Copy, Debug, PartialEq, Eq, Structural)]
pub enum StatusKind {
    Success,
    Missing,
    Duplicate,
    Rejected,
    Down,
}

/// The outcome kind owed for each failure: `NotFound` maps to
/// `Missing`, `Conflict` to `Duplicate`, `InvalidInput` to `Rejected`,
/// and `Unavailable` to `Down`.
pub open spec fn spec_status_kind(e: StoreError) -> StatusKind {
    match e {
        StoreError::NotFound => StatusKind::Missing,
        StoreError::Conflict => StatusKind::Duplicate,
        StoreError::InvalidInput => StatusKind::Rejected,
        StoreError::Unavailable => StatusKind::Down,
    }
}

/// Maps a store failure to the outcome kind the dispatcher must report.
pub fn status_kind(e: StoreError) -> (r: StatusKind)
    ensures
        r == spec_status_kind(e),
{
    match e {
        StoreError::NotFound => StatusKind::Missing,
        StoreError::Conflict => StatusKind::Duplicate,
        StoreError::InvalidInput => StatusKind::Rejected,
        StoreError::Unavailable => StatusKind::Down,
    }
}

} // verus!
