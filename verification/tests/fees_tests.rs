use transaction_monitor::fees::{bump_transaction, increase_by_minimum};
use transaction_monitor::types::TransactionRequest;

fn request(max_fee: Option<u128>, priority_fee: Option<u128>) -> TransactionRequest {
    TransactionRequest {
        to: vec![0xab; 20],
        value: 1_000_000,
        data: vec![1, 2, 3],
        nonce: 7,
        gas_limit: 21_000,
        max_fee_per_gas: max_fee,
        max_priority_fee_per_gas: priority_fee,
    }
}

#[test]
fn bump_of_1000_is_1101() {
    assert_eq!(increase_by_minimum(1000), 1101);
}

#[test]
fn bump_of_zero_is_one() {
    assert_eq!(increase_by_minimum(0), 1);
}

#[test]
fn bump_is_strictly_above_ten_percent() {
    for v in [0u128, 1, 9, 10, 99, 100, 1000, 123_456_789] {
        let bumped = increase_by_minimum(v);
        assert_eq!(bumped, v + v * 10 / 100 + 1);
        assert!(bumped > v + v / 10);
    }
}

#[test]
fn escalation_exact_values() {
    // previous (100, 10), estimate (50, 5):
    // new priority = max(5, bump(10)) = 12
    // new base = max(50 - 5, bump(100 - 10)) = max(45, 100) = 100
    // new max = 100 + 12 = 112
    let mut tx = request(Some(100), Some(10));
    bump_transaction(&mut tx, 50, 5);
    assert_eq!(tx.max_fee_per_gas, Some(112));
    assert_eq!(tx.max_priority_fee_per_gas, Some(12));
}

#[test]
fn escalation_missing_fees_defaults_to_estimate() {
    // previous pair defaults to the estimate (50, 5):
    // new priority = max(5, bump(5)) = 6
    // new base = max(45, bump(45)) = 50
    // new max = 56
    let mut tx = request(None, None);
    bump_transaction(&mut tx, 50, 5);
    assert_eq!(tx.max_fee_per_gas, Some(56));
    assert_eq!(tx.max_priority_fee_per_gas, Some(6));
}

#[test]
fn escalation_tracks_a_rising_estimate() {
    // previous (100, 10), estimate (10_000, 2_000):
    // new priority = max(2_000, 12) = 2_000
    // new base = max(8_000, bump(90)) = 8_000
    // new max = 10_000
    let mut tx = request(Some(100), Some(10));
    bump_transaction(&mut tx, 10_000, 2_000);
    assert_eq!(tx.max_priority_fee_per_gas, Some(2_000));
    assert_eq!(tx.max_fee_per_gas, Some(10_000));
}

#[test]
fn escalation_invariants_hold() {
    // newPriorityFee >= estimatePriorityFee and
    // newMaxFee == newBaseFee + newPriorityFee, with no drift.
    let cases = [
        (Some(100u128), Some(10u128), 50u128, 5u128),
        (Some(1_000), Some(1), 900, 800),
        (None, Some(3), 70, 7),
        (Some(500), None, 70, 7),
        (None, None, 1, 0),
        (Some(0), Some(0), 0, 0),
    ];
    for (pm, pp, em, ep) in cases {
        let mut tx = request(pm, pp);
        bump_transaction(&mut tx, em, ep);
        let new_priority = tx.max_priority_fee_per_gas.unwrap();
        let new_max = tx.max_fee_per_gas.unwrap();
        assert!(new_priority >= ep);
        let prev_max = pm.unwrap_or(em);
        let prev_priority = pp.unwrap_or(ep);
        let expected_priority = ep.max(increase_by_minimum(prev_priority));
        let expected_base = (em - ep).max(increase_by_minimum(prev_max - prev_priority));
        assert_eq!(new_priority, expected_priority);
        assert_eq!(new_max, expected_base + expected_priority);
    }
}

#[test]
fn escalation_changes_only_the_fee_fields() {
    let mut tx = request(Some(100), Some(10));
    bump_transaction(&mut tx, 50, 5);
    assert_eq!(tx.to, vec![0xab; 20]);
    assert_eq!(tx.value, 1_000_000);
    assert_eq!(tx.data, vec![1, 2, 3]);
    assert_eq!(tx.nonce, 7);
    assert_eq!(tx.gas_limit, 21_000);
}
