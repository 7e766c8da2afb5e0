//! Fee escalation policy: a pure computation turning (previous fee pair,
//! fresh network estimate) into a replacement fee pair that strictly exceeds
//! a 10% increase over the previous pair, as the network's replace-by-fee
//! acceptance rule demands.

use vstd::math::max;
use vstd::prelude::*;

use crate::types::{TransactionRequest, MAX_TRACKED_FEE};

verus! {

/// The minimum-bump formula: a 10% increase, truncated, plus one.  The `+ 1`
/// keeps the result strictly above a 10% increase even under integer
/// truncation.
pub open spec fn bump_spec(v: int) -> int {
    v + (v * 10) / 100 + 1
}

/// The previous max fee used by escalation: the entry's own when present,
/// else the fresh estimate.
pub open spec fn prev_max_fee_spec(r: TransactionRequest, estimate_max_fee: u128) -> int {
    if r.max_fee_per_gas is Some {
        r.max_fee_per_gas->0 as int
    } else {
        estimate_max_fee as int
    }
}

/// The previous priority fee used by escalation: the entry's own when
/// present, else the fresh estimate.
pub open spec fn prev_priority_fee_spec(
    r: TransactionRequest,
    estimate_max_priority_fee: u128,
) -> int {
    if r.max_priority_fee_per_gas is Some {
        r.max_priority_fee_per_gas->0 as int
    } else {
        estimate_max_priority_fee as int
    }
}

/// The replacement priority fee: never below the fresh estimate, never below
/// the minimum bump of the previous priority fee.
pub open spec fn escalated_priority_fee(prev_priority: int, estimate_priority: int) -> int {
    max(estimate_priority, bump_spec(prev_priority))
}

/// The replacement base fee: never below the estimated base fee, never below
/// the minimum bump of the previous base fee.
pub open spec fn escalated_base_fee(
    prev_max: int,
    prev_priority: int,
    estimate_max: int,
    estimate_priority: int,
) -> int {
    max(estimate_max - estimate_priority, bump_spec(prev_max - prev_priority))
}

/// The replacement max fee: exactly the replacement base fee plus the
/// replacement priority fee.
pub open spec fn escalated_max_fee(
    prev_max: int,
    prev_priority: int,
    estimate_max: int,
    estimate_priority: int,
) -> int {
    escalated_base_fee(prev_max, prev_priority, estimate_max, estimate_priority)
        + escalated_priority_fee(prev_priority, estimate_priority)
}

/// The minimum fee increase the network accepts for a fee-only replacement
/// of a pending transaction at the same nonce: strictly more than 10%.
pub fn increase_by_minimum(value: u128) -> (r: u128)
    requires
        value <= MAX_TRACKED_FEE,
    ensures
        r == bump_spec(value as int),
        r > value + (value as int) / 10,
{
    let increase = (value * 10) / 100;
    value + increase + 1
}

/// Applies the escalation policy to a request's fee pair, in place: both the
/// priority fee and the max fee rise to whichever is larger of the fresh
/// estimate and the minimum bump of the previous value, with the max fee
/// recomposed exactly as new base fee plus new priority fee.  A missing
/// previous fee defaults to the fresh estimate.  Nothing but the two fee
/// fields changes.
pub fn bump_transaction(
    tx: &mut TransactionRequest,
    estimate_max_fee: u128,
    estimate_max_priority_fee: u128,
)
    requires
        estimate_max_priority_fee <= estimate_max_fee,
        estimate_max_fee <= MAX_TRACKED_FEE,
        prev_priority_fee_spec(*old(tx), estimate_max_priority_fee) <= prev_max_fee_spec(
            *old(tx),
            estimate_max_fee,
        ),
        prev_max_fee_spec(*old(tx), estimate_max_fee) <= MAX_TRACKED_FEE,
    ensures
        final(tx).max_priority_fee_per_gas is Some,
        final(tx).max_priority_fee_per_gas->0 == escalated_priority_fee(
            prev_priority_fee_spec(*old(tx), estimate_max_priority_fee),
            estimate_max_priority_fee as int,
        ),
        final(tx).max_fee_per_gas is Some,
        final(tx).max_fee_per_gas->0 == escalated_max_fee(
            prev_max_fee_spec(*old(tx), estimate_max_fee),
            prev_priority_fee_spec(*old(tx), estimate_max_priority_fee),
            estimate_max_fee as int,
            estimate_max_priority_fee as int,
        ),
        final(tx).max_priority_fee_per_gas->0 >= estimate_max_priority_fee,
        final(tx).to == old(tx).to,
        final(tx).value == old(tx).value,
        final(tx).data == old(tx).data,
        final(tx).nonce == old(tx).nonce,
        final(tx).gas_limit == old(tx).gas_limit,
{
    let prev_max_priority_fee = match tx.max_priority_fee_per_gas {
        Some(v) => v,
        None => estimate_max_priority_fee,
    };
    let prev_max_fee = match tx.max_fee_per_gas {
        Some(v) => v,
        None => estimate_max_fee,
    };

    let bumped_priority = increase_by_minimum(prev_max_priority_fee);
    let new_max_priority_fee = if estimate_max_priority_fee >= bumped_priority {
        estimate_max_priority_fee
    } else {
        bumped_priority
    };

    let estimate_base_fee = estimate_max_fee - estimate_max_priority_fee;
    let prev_base_fee = prev_max_fee - prev_max_priority_fee;
    let bumped_base = increase_by_minimum(prev_base_fee);
    let new_base_fee = if estimate_base_fee >= bumped_base {
        estimate_base_fee
    } else {
        bumped_base
    };
    let new_max_fee = new_base_fee + new_max_priority_fee;

    tx.max_fee_per_gas = Some(new_max_fee);
    tx.max_priority_fee_per_gas = Some(new_max_priority_fee);
}

} // verus!
