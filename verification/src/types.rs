//! Plain data carried by the monitor: identifiers, transaction requests,
//! tracked entries, and the error taxonomy.

use vstd::prelude::*;

verus! {

/// Fees above this ceiling are never tracked.  Real fee-market fees are tens
/// of orders of magnitude below it; the bound exists only so that the
/// escalation arithmetic is provably free of overflow.
pub const MAX_TRACKED_FEE: u128 = u128::MAX / 32;

/// A 256-bit network identifier (a transaction hash or a block hash),
/// held as two 128-bit halves and compared by value.
#[derive(Clone, Copy, PartialEq, Eq, Structural, Debug)]
pub struct Hash256 {
    pub hi: u128,
    pub lo: u128,
}

/// An optional broadcast hint naming a specific block; opaque to the
/// monitor, passed through to every broadcast of the same entry.
#[derive(Clone, Copy, PartialEq, Eq, Structural, Debug)]
pub enum BlockRef {
    ByNumber(u64),
    ByHash(Hash256),
}

/// Canonical fee-market transaction fields.  Everything but the two fee
/// fields passes through the monitor untouched.
#[derive(Clone, Debug)]
#[verifier::ext_equal]
pub struct TransactionRequest {
    pub to: Vec<u8>,
    pub value: u128,
    pub data: Vec<u8>,
    pub nonce: u64,
    pub gas_limit: u64,
    pub max_fee_per_gas: Option<u128>,
    pub max_priority_fee_per_gas: Option<u128>,
}

/// Both fee fields present, priority fee no larger than the max fee, and the
/// max fee under the tracked ceiling.  Every entry the registry holds
/// satisfies this.
pub open spec fn request_fees_wf(r: TransactionRequest) -> bool {
    &&& r.max_fee_per_gas is Some
    &&& r.max_priority_fee_per_gas is Some
    &&& r.max_priority_fee_per_gas->0 <= r.max_fee_per_gas->0
    &&& r.max_fee_per_gas->0 <= MAX_TRACKED_FEE
}

/// Executable form of `request_fees_wf`, for callers that must test the
/// condition before handing a request to an operation that requires it.
pub fn request_fees_wf_check(r: &TransactionRequest) -> (b: bool)
    ensures
        b == request_fees_wf(*r),
{
    match (r.max_fee_per_gas, r.max_priority_fee_per_gas) {
        (Some(max_fee), Some(priority_fee)) => priority_fee <= max_fee
            && max_fee <= MAX_TRACKED_FEE,
        _ => false,
    }
}

/// One tracked submission: the externally visible tracking id (stable across
/// rebroadcasts), the hash of the most recent broadcast, the canonical
/// request with its current fees, and the optional broadcast hint.
#[derive(Clone, Debug)]
#[verifier::ext_equal]
pub struct MonitoredTransaction {
    pub tracking_id: u128,
    pub current_hash: Hash256,
    pub request: TransactionRequest,
    pub submission_target: Option<BlockRef>,
}

impl MonitoredTransaction {
    pub open spec fn wf(self) -> bool {
        request_fees_wf(self.request)
    }
}

/// What `get_transaction_status` reports: an entry either still lives in the
/// registry or has been removed, and removal is the only record of
/// completion.
#[derive(Clone, Copy, PartialEq, Eq, Structural, Debug)]
pub enum Status {
    Pending,
    Complete,
}

/// The failures the monitor distinguishes.  A rejected replacement is not
/// here: it is absorbed as silent completion and never surfaced as an error.
#[derive(Clone, Copy, PartialEq, Eq, Structural, Debug)]
pub enum MonitorError {
    /// Malformed submission input; no entry is created.
    ValidationError,
    /// Fee estimation, canonicalization, or broadcast failed during
    /// submission; no entry is created.
    SubmissionFailed,
    /// Unknown or already-completed tracking id.
    NotFound,
    /// Any failure inside the block watch loop other than a rejected
    /// replacement; fatal to the whole loop.
    MonitorFatal,
}

} // verus!
