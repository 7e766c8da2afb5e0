use transaction_monitor::messages::{contains_subsequence, is_replacement_rejected};

#[test]
fn nonce_too_low_is_replacement_rejected() {
    let message = b"err: code -32000, message: nonce too low, data: None".to_vec();
    assert!(is_replacement_rejected(&message));
}

#[test]
fn exact_marker_is_replacement_rejected() {
    assert!(is_replacement_rejected(&b"nonce too low".to_vec()));
}

#[test]
fn other_failures_are_not_replacement_rejected() {
    assert!(!is_replacement_rejected(&b"insufficient funds for gas * price + value".to_vec()));
    assert!(!is_replacement_rejected(&b"nonce too high".to_vec()));
    assert!(!is_replacement_rejected(&b"".to_vec()));
    // a prefix of the marker alone does not count
    assert!(!is_replacement_rejected(&b"nonce too lo".to_vec()));
}

#[test]
fn subsequence_search_finds_runs() {
    let hay = b"abcdef".to_vec();
    assert!(contains_subsequence(&hay, &b"abc".to_vec()));
    assert!(contains_subsequence(&hay, &b"cde".to_vec()));
    assert!(contains_subsequence(&hay, &b"def".to_vec()));
    assert!(contains_subsequence(&hay, &b"abcdef".to_vec()));
    assert!(!contains_subsequence(&hay, &b"acf".to_vec()));
    assert!(!contains_subsequence(&hay, &b"abcdefg".to_vec()));
}

#[test]
fn empty_needle_always_matches() {
    assert!(contains_subsequence(&b"abc".to_vec(), &Vec::new()));
    assert!(contains_subsequence(&Vec::new(), &Vec::new()));
}
