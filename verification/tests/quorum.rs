use anchor_qbft::qbft::bytes::{copy_bytes, same_bytes};
use anchor_qbft::qbft::{MessageKind, QuorumStore};
use anchor_qbft::qbft_types::{OperatorId, Round};

#[test]
fn empty_store_counts_nothing() {
    let store = QuorumStore::new();
    assert_eq!(store.count_matching(Round(0), MessageKind::Prepare, &vec![1]), 0);
    assert_eq!(store.count_voters(Round(0), MessageKind::Prepare), 0);
}

#[test]
fn distinct_operators_are_counted() {
    let mut store = QuorumStore::new();
    store.record(Round(0), MessageKind::Prepare, OperatorId(1), vec![9]);
    assert_eq!(store.count_matching(Round(0), MessageKind::Prepare, &vec![9]), 1);
    store.record(Round(0), MessageKind::Prepare, OperatorId(2), vec![9]);
    assert_eq!(store.count_matching(Round(0), MessageKind::Prepare, &vec![9]), 2);
    store.record(Round(0), MessageKind::Prepare, OperatorId(3), vec![9]);
    assert_eq!(store.count_matching(Round(0), MessageKind::Prepare, &vec![9]), 3);
    assert_eq!(store.count_voters(Round(0), MessageKind::Prepare), 3);
}

#[test]
fn same_vote_twice_counts_once() {
    let mut store = QuorumStore::new();
    store.record(Round(0), MessageKind::Confirm, OperatorId(3), vec![5, 5]);
    store.record(Round(0), MessageKind::Confirm, OperatorId(3), vec![5, 5]);
    assert_eq!(store.count_matching(Round(0), MessageKind::Confirm, &vec![5, 5]), 1);
    assert_eq!(store.count_voters(Round(0), MessageKind::Confirm), 1);
    for _ in 0..100 {
        store.record(Round(0), MessageKind::Confirm, OperatorId(3), vec![5, 5]);
    }
    assert_eq!(store.count_matching(Round(0), MessageKind::Confirm, &vec![5, 5]), 1);
    assert_eq!(store.count_voters(Round(0), MessageKind::Confirm), 1);
}

#[test]
fn changed_vote_moves_to_new_value() {
    let mut store = QuorumStore::new();
    store.record(Round(2), MessageKind::Prepare, OperatorId(1), vec![1]);
    store.record(Round(2), MessageKind::Prepare, OperatorId(2), vec![1]);
    assert_eq!(store.count_matching(Round(2), MessageKind::Prepare, &vec![1]), 2);
    store.record(Round(2), MessageKind::Prepare, OperatorId(2), vec![2]);
    assert_eq!(store.count_matching(Round(2), MessageKind::Prepare, &vec![1]), 1);
    assert_eq!(store.count_matching(Round(2), MessageKind::Prepare, &vec![2]), 1);
    assert_eq!(store.count_voters(Round(2), MessageKind::Prepare), 2);
}

#[test]
fn rounds_and_kinds_are_tallied_apart() {
    let mut store = QuorumStore::new();
    store.record(Round(0), MessageKind::Prepare, OperatorId(1), vec![1]);
    store.record(Round(1), MessageKind::Prepare, OperatorId(2), vec![1]);
    store.record(Round(0), MessageKind::Confirm, OperatorId(3), vec![1]);
    store.record(Round(0), MessageKind::RoundChange, OperatorId(4), vec![]);
    store.record(Round(0), MessageKind::Confirm, OperatorId(1), vec![1]);
    assert_eq!(store.count_matching(Round(0), MessageKind::Prepare, &vec![1]), 1);
    assert_eq!(store.count_matching(Round(1), MessageKind::Prepare, &vec![1]), 1);
    assert_eq!(store.count_matching(Round(0), MessageKind::Confirm, &vec![1]), 2);
    assert_eq!(store.count_matching(Round(0), MessageKind::RoundChange, &vec![]), 1);
    assert_eq!(store.count_matching(Round(0), MessageKind::RoundChange, &vec![1]), 0);
    assert_eq!(store.count_voters(Round(0), MessageKind::RoundChange), 1);
    assert_eq!(store.count_voters(Round(2), MessageKind::Prepare), 0);
    assert_eq!(store.count_voters(Round(1), MessageKind::Confirm), 0);
}

#[test]
fn voters_are_counted_whatever_the_value() {
    let mut store = QuorumStore::new();
    store.record(Round(4), MessageKind::RoundChange, OperatorId(1), vec![1]);
    store.record(Round(4), MessageKind::RoundChange, OperatorId(2), vec![2]);
    store.record(Round(4), MessageKind::RoundChange, OperatorId(3), vec![]);
    store.record(Round(4), MessageKind::RoundChange, OperatorId(3), vec![3]);
    assert_eq!(store.count_voters(Round(4), MessageKind::RoundChange), 3);
    assert_eq!(store.count_matching(Round(4), MessageKind::RoundChange, &vec![]), 0);
    assert_eq!(store.count_matching(Round(4), MessageKind::RoundChange, &vec![3]), 1);
}

#[test]
fn clear_forgets_every_vote() {
    let mut store = QuorumStore::new();
    store.record(Round(0), MessageKind::Prepare, OperatorId(1), vec![1]);
    store.record(Round(7), MessageKind::Confirm, OperatorId(2), vec![1]);
    store.clear();
    assert_eq!(store.count_voters(Round(0), MessageKind::Prepare), 0);
    assert_eq!(store.count_voters(Round(7), MessageKind::Confirm), 0);
    store.record(Round(0), MessageKind::Prepare, OperatorId(1), vec![1]);
    assert_eq!(store.count_matching(Round(0), MessageKind::Prepare, &vec![1]), 1);
}

#[test]
fn values_are_compared_byte_by_byte() {
    let mut store = QuorumStore::new();
    store.record(Round(0), MessageKind::Prepare, OperatorId(1), vec![1, 2, 3]);
    store.record(Round(0), MessageKind::Prepare, OperatorId(2), vec![1, 2]);
    store.record(Round(0), MessageKind::Prepare, OperatorId(3), vec![1, 2, 4]);
    store.record(Round(0), MessageKind::Prepare, OperatorId(4), vec![]);
    assert_eq!(store.count_matching(Round(0), MessageKind::Prepare, &vec![1, 2, 3]), 1);
    assert_eq!(store.count_matching(Round(0), MessageKind::Prepare, &vec![1, 2]), 1);
    assert_eq!(store.count_matching(Round(0), MessageKind::Prepare, &vec![]), 1);
    assert_eq!(store.count_matching(Round(0), MessageKind::Prepare, &vec![3, 2, 1]), 0);
}

#[test]
fn same_bytes_tells_equal_from_different() {
    assert!(same_bytes(&vec![], &vec![]));
    assert!(same_bytes(&vec![1, 2, 3], &vec![1, 2, 3]));
    assert!(!same_bytes(&vec![1, 2, 3], &vec![1, 2]));
    assert!(!same_bytes(&vec![1, 2], &vec![1, 2, 3]));
    assert!(!same_bytes(&vec![1, 2, 3], &vec![1, 2, 4]));
    assert!(!same_bytes(&vec![0], &vec![]));
}

#[test]
fn copy_bytes_copies() {
    assert_eq!(copy_bytes(&vec![]), Vec::<u8>::new());
    assert_eq!(copy_bytes(&vec![4, 0, 255]), vec![4, 0, 255]);
}
