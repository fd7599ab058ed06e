use encrypted_opinion::pending::{Operation, PendingComputation, PendingError, PendingTable};

fn entry(token: u64, op: Operation, nonce: u128) -> PendingComputation {
    PendingComputation { token, target: [1; 32], operation: op, nonce }
}

#[test]
fn a_token_is_consumed_once() {
    let mut table = PendingTable::new();
    assert_eq!(table.register(entry(1, Operation::Submit, 10)), Ok(()));
    let got = table.settle(1, Operation::Submit, [1; 32], 10).ok().expect("settled");
    assert_eq!(got.token, 1);
    assert_eq!(got.nonce, 10);
    assert!(matches!(table.settle(1, Operation::Submit, [1; 32], 10), Err(PendingError::UnknownToken)));
}

#[test]
fn duplicate_tokens_are_refused() {
    let mut table = PendingTable::new();
    assert_eq!(table.register(entry(1, Operation::Submit, 10)), Ok(()));
    assert_eq!(table.register(entry(1, Operation::Reveal, 11)), Err(PendingError::DuplicateToken));
    assert_eq!(table.register(entry(2, Operation::Reveal, 11)), Ok(()));
}

#[test]
fn mismatched_callbacks_leave_the_request_in_flight() {
    let mut table = PendingTable::new();
    table.register(entry(1, Operation::Submit, 10)).unwrap();
    assert!(matches!(table.settle(1, Operation::Reveal, [1; 32], 10), Err(PendingError::Mismatch)));
    assert!(matches!(table.settle(1, Operation::Submit, [2; 32], 10), Err(PendingError::Mismatch)));
    assert!(table.settle(1, Operation::Submit, [1; 32], 10).is_ok());
}

#[test]
fn stale_results_are_refused_and_consumed() {
    let mut table = PendingTable::new();
    table.register(entry(1, Operation::Submit, 10)).unwrap();
    table.register(entry(2, Operation::Submit, 10)).unwrap();
    assert!(table.settle(1, Operation::Submit, [1; 32], 10).is_ok());
    // The first commit replaced the nonce: the second request read old ciphertexts.
    assert!(matches!(table.settle(2, Operation::Submit, [1; 32], 11), Err(PendingError::StaleState)));
    assert!(matches!(table.settle(2, Operation::Submit, [1; 32], 10), Err(PendingError::UnknownToken)));
}
