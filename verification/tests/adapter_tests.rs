use raywatch_geyser::adapt_entry;
use raywatch_geyser::adapt_transaction;
use raywatch_geyser::entry_passes;
use raywatch_geyser::CanonicalEntryEvent;
use raywatch_geyser::EntryShape;
use raywatch_geyser::TransactionShape;

#[test]
fn tx_shapes_normalize_identically() {
    let shapes = [
        TransactionShape::V001 { signature: "abc".to_string(), is_vote: false },
        TransactionShape::V002 { signature: "abc".to_string(), is_vote: false, index: 9 },
        TransactionShape::V003 { signature: "abc".to_string(), is_vote: false, index: 11 },
    ];
    for shape in shapes.iter() {
        let ev = adapt_transaction(shape, 42).expect("known shape must normalize");
        assert_eq!(ev.slot, 42);
        assert_eq!(ev.signature, "abc");
        assert!(!ev.is_vote);
    }
}

#[test]
fn tx_vote_flag_carries_over() {
    let shape = TransactionShape::V002 { signature: "sig".to_string(), is_vote: true, index: 0 };
    let ev = adapt_transaction(&shape, 7).unwrap();
    assert!(ev.is_vote);
    assert_eq!(ev.slot, 7);
}

#[test]
fn entry_shapes_normalize_identically() {
    let one = EntryShape::V001 { slot: 100, index: 3, num_hashes: 50, executed_tx_count: 7 };
    let two = EntryShape::V002 {
        slot: 100,
        index: 3,
        num_hashes: 50,
        executed_tx_count: 7,
        starting_tx_index: 21,
    };
    let from_one = adapt_entry(&one).unwrap();
    let from_two = adapt_entry(&two).unwrap();
    assert_eq!(from_one, from_two);
    assert_eq!(
        from_one,
        CanonicalEntryEvent { slot: 100, index: 3, num_hashes: 50, executed_tx_count: 7 }
    );
}

#[test]
fn unrecognized_tx_shape_is_dropped() {
    assert!(adapt_transaction(&TransactionShape::Unrecognized, 5).is_none());
}

#[test]
fn unrecognized_entry_shape_is_dropped() {
    assert!(adapt_entry(&EntryShape::Unrecognized).is_none());
}

#[test]
fn entry_filter_drops_empty_entries_only() {
    let empty = CanonicalEntryEvent { slot: 100, index: 3, num_hashes: 50, executed_tx_count: 0 };
    let busy = CanonicalEntryEvent { slot: 100, index: 3, num_hashes: 50, executed_tx_count: 7 };
    assert!(!entry_passes(&empty));
    assert!(entry_passes(&busy));
}
