use transaction_monitor::monitor::{
    needs_fee_estimate, with_estimated_fees, SendOutcome, TransactionMonitor,
};
use transaction_monitor::registry::PendingTransactionRegistry;
use transaction_monitor::types::{
    Hash256, MonitorError, MonitoredTransaction, Status, TransactionRequest, MAX_TRACKED_FEE,
};

fn request(max_fee: Option<u128>, priority_fee: Option<u128>) -> TransactionRequest {
    TransactionRequest {
        to: vec![0x11; 20],
        value: 42,
        data: Vec::new(),
        nonce: 1,
        gas_limit: 21_000,
        max_fee_per_gas: max_fee,
        max_priority_fee_per_gas: priority_fee,
    }
}

fn hash(n: u128) -> Hash256 {
    Hash256 { hi: n, lo: n.wrapping_mul(7) }
}

#[test]
fn submit_then_status_is_pending() {
    let mut m = TransactionMonitor::new(3);
    let id = m
        .send_monitored_transaction(request(Some(100), Some(10)), hash(1), None)
        .expect("fresh id should not collide");
    assert_eq!(m.get_transaction_status(id), Status::Pending);
}

#[test]
fn two_submissions_get_distinct_ids_both_pending() {
    let mut m = TransactionMonitor::new(3);
    let first = m
        .send_monitored_transaction(request(Some(100), Some(10)), hash(1), None)
        .expect("fresh id should not collide");
    let second = m
        .send_monitored_transaction(request(Some(200), Some(20)), hash(2), None)
        .expect("fresh id should not collide");
    assert_ne!(first, second);
    assert_eq!(m.get_transaction_status(first), Status::Pending);
    assert_eq!(m.get_transaction_status(second), Status::Pending);
}

#[test]
fn unknown_id_reads_complete() {
    let m = TransactionMonitor::new(3);
    // Complete cannot distinguish "never submitted" from "already done".
    assert_eq!(m.get_transaction_status(12345), Status::Complete);
}

#[test]
fn included_entry_completes_and_stays_complete() {
    let mut m = TransactionMonitor::new(3);
    let id = m
        .send_monitored_transaction(request(Some(100), Some(10)), hash(1), None)
        .expect("fresh id should not collide");

    let block = vec![hash(9), hash(1), hash(8)];
    let plan = m.process_block(&block, 50, 5).unwrap();
    assert!(plan.is_empty());
    assert_eq!(m.get_transaction_status(id), Status::Complete);

    // later blocks never revive the id
    for n in 0..5u128 {
        let other = vec![hash(100 + n)];
        let plan = m.process_block(&other, 50, 5).unwrap();
        assert!(plan.is_empty());
        assert_eq!(m.get_transaction_status(id), Status::Complete);
    }
}

#[test]
fn escalation_waits_for_the_cadence() {
    let mut m = TransactionMonitor::new(3);
    let id = m
        .send_monitored_transaction(request(Some(100), Some(10)), hash(1), None)
        .expect("fresh id should not collide");

    // blocks 1 and 2: not yet due, entry kept unchanged
    for n in 0..2u128 {
        let block = vec![hash(50 + n)];
        let plan = m.process_block(&block, 50, 5).unwrap();
        assert!(plan.is_empty());
        assert_eq!(m.get_transaction_status(id), Status::Pending);
        let entry = &m.registry.entries[0];
        assert_eq!(entry.current_hash, hash(1));
        assert_eq!(entry.request.max_fee_per_gas, Some(100));
        assert_eq!(entry.request.max_priority_fee_per_gas, Some(10));
    }

    // block 3: due; the plan escalates from the untouched (100, 10) pair
    let block = vec![hash(60)];
    let plan = m.process_block(&block, 50, 5).unwrap();
    assert_eq!(plan.len(), 1);
    let item = &plan[0];
    assert_eq!(item.tracking_id, id);
    assert_eq!(item.previous_hash, hash(1));
    assert_eq!(item.request.max_fee_per_gas, Some(112));
    assert_eq!(item.request.max_priority_fee_per_gas, Some(12));
}

#[test]
fn successful_rebroadcast_updates_hash_and_fees() {
    let mut m = TransactionMonitor::new(1);
    let id = m
        .send_monitored_transaction(request(Some(100), Some(10)), hash(1), None)
        .expect("fresh id should not collide");

    // cadence 1: first block is already due
    let plan = m.process_block(&vec![hash(77)], 50, 5).unwrap();
    assert_eq!(plan.len(), 1);
    assert_eq!(m.get_transaction_status(id), Status::Complete);

    let mut plan = plan;
    let item = plan.pop().unwrap();
    let outcome = m.record_rebroadcast(item, SendOutcome::Sent(hash(2)));
    assert!(outcome.is_ok());
    assert_eq!(m.get_transaction_status(id), Status::Pending);
    let entry = &m.registry.entries[0];
    assert_eq!(entry.tracking_id, id);
    assert_eq!(entry.current_hash, hash(2));
    assert_eq!(entry.request.max_fee_per_gas, Some(112));
    assert_eq!(entry.request.max_priority_fee_per_gas, Some(12));

    // the replacement completes once its new hash is mined
    let plan = m.process_block(&vec![hash(2)], 50, 5).unwrap();
    assert!(plan.is_empty());
    assert_eq!(m.get_transaction_status(id), Status::Complete);
}

#[test]
fn recording_one_rebroadcast_leaves_other_ids_alone() {
    let mut m = TransactionMonitor::new(1);
    let first = m
        .send_monitored_transaction(request(Some(100), Some(10)), hash(1), None)
        .expect("fresh id should not collide");
    let second = m
        .send_monitored_transaction(request(Some(200), Some(20)), hash(2), None)
        .expect("fresh id should not collide");

    // cadence 1: both entries leave as the tick's rebroadcast plan
    let plan = m.process_block(&vec![hash(77)], 50, 5).unwrap();
    assert_eq!(plan.len(), 2);
    assert_eq!(m.get_transaction_status(first), Status::Complete);
    assert_eq!(m.get_transaction_status(second), Status::Complete);

    // recording the first item restores only the first id
    let mut plan = plan;
    let second_item = plan.pop().unwrap();
    let first_item = plan.pop().unwrap();
    assert_eq!(first_item.tracking_id, first);
    assert_eq!(second_item.tracking_id, second);
    m.record_rebroadcast(first_item, SendOutcome::Sent(hash(3))).unwrap();
    assert_eq!(m.get_transaction_status(first), Status::Pending);
    assert_eq!(m.get_transaction_status(second), Status::Complete);
}

#[test]
fn replacement_rejected_is_silent_completion() {
    let mut m = TransactionMonitor::new(1);
    let id = m
        .send_monitored_transaction(request(Some(100), Some(10)), hash(1), None)
        .expect("fresh id should not collide");

    let mut plan = m.process_block(&vec![hash(77)], 50, 5).unwrap();
    let item = plan.pop().unwrap();
    let message = b"rpc error: nonce too low".to_vec();
    let outcome = m.record_rebroadcast(item, SendOutcome::SendFailed(message));
    // no error raised, entry stays removed
    assert!(outcome.is_ok());
    assert_eq!(m.get_transaction_status(id), Status::Complete);
}

#[test]
fn other_send_failures_are_fatal() {
    let mut m = TransactionMonitor::new(1);
    let id = m
        .send_monitored_transaction(request(Some(100), Some(10)), hash(1), None)
        .expect("fresh id should not collide");

    let mut plan = m.process_block(&vec![hash(77)], 50, 5).unwrap();
    let item = plan.pop().unwrap();
    let message = b"insufficient funds".to_vec();
    let outcome = m.record_rebroadcast(item, SendOutcome::SendFailed(message));
    assert!(matches!(outcome, Err(MonitorError::MonitorFatal)));
    assert_eq!(m.get_transaction_status(id), Status::Complete);
}

#[test]
fn block_fetch_failure_leaves_entries_pending() {
    let mut m = TransactionMonitor::new(3);
    let first = m
        .send_monitored_transaction(request(Some(100), Some(10)), hash(1), None)
        .expect("fresh id should not collide");
    let second = m
        .send_monitored_transaction(request(Some(200), Some(20)), hash(2), None)
        .expect("fresh id should not collide");

    // one block goes by without either hash
    let plan = m.process_block(&vec![hash(99)], 50, 5).unwrap();
    assert!(plan.is_empty());

    // then a block fetch fails: the watch loop stops and never processes
    // another block, so the entries stay Pending from here on
    for _ in 0..3 {
        assert_eq!(m.get_transaction_status(first), Status::Pending);
        assert_eq!(m.get_transaction_status(second), Status::Pending);
    }
}

#[test]
fn escalation_over_the_ceiling_is_fatal_and_preserves_entries() {
    let mut m = TransactionMonitor::new(1);
    let id = m
        .send_monitored_transaction(request(Some(MAX_TRACKED_FEE), Some(0)), hash(1), None)
        .expect("fresh id should not collide");

    let r = m.process_block(&vec![hash(77)], 1, 0);
    assert!(matches!(r, Err(MonitorError::MonitorFatal)));
    assert_eq!(m.get_transaction_status(id), Status::Pending);
}

#[test]
fn fee_estimate_fills_only_when_a_field_is_missing() {
    assert!(needs_fee_estimate(&request(None, None)));
    assert!(needs_fee_estimate(&request(Some(1), None)));
    assert!(needs_fee_estimate(&request(None, Some(1))));
    assert!(!needs_fee_estimate(&request(Some(1), Some(1))));

    let filled = with_estimated_fees(request(Some(1), None), 50, 5);
    assert_eq!(filled.max_fee_per_gas, Some(50));
    assert_eq!(filled.max_priority_fee_per_gas, Some(5));
    assert_eq!(filled.value, 42);
    assert_eq!(filled.nonce, 1);
}

#[test]
fn registry_operations_round_trip() {
    let mut reg = PendingTransactionRegistry::new();
    assert!(!reg.contains(1));

    let entry = MonitoredTransaction {
        tracking_id: 1,
        current_hash: hash(1),
        request: request(Some(100), Some(10)),
        submission_target: None,
    };
    reg.insert(entry);
    assert!(reg.contains(1));
    assert!(!reg.contains(2));

    let drained = reg.drain_all();
    assert_eq!(drained.len(), 1);
    assert!(!reg.contains(1));

    for e in drained {
        reg.reinsert(e);
    }
    assert!(reg.contains(1));
}
