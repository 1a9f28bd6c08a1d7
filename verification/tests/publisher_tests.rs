use raywatch_geyser::default_kafka_brokers;
use raywatch_geyser::resolve_brokers;
use raywatch_geyser::CanonicalEntryEvent;
use raywatch_geyser::CanonicalTransactionEvent;
use raywatch_geyser::EntryShape;
use raywatch_geyser::NotifyOutcome;
use raywatch_geyser::PublishOutcome;
use raywatch_geyser::Publisher;
use raywatch_geyser::TransactionShape;

const TOPIC: &str = "raydium-swaps-raw";

#[test]
fn default_broker_address() {
    assert_eq!(default_kafka_brokers(), "localhost:9092");
}

#[test]
fn configured_brokers_used_verbatim() {
    let r = resolve_brokers(Some("b1:9092,b2:9092".to_string()));
    assert_eq!(r, "b1:9092,b2:9092");
}

#[test]
fn missing_config_falls_back_to_default() {
    assert_eq!(resolve_brokers(None), "localhost:9092");
}

#[test]
fn load_succeeds_with_default_address() {
    let p = Publisher::load(TOPIC.to_string(), None).expect("local producer creation");
    let busy = EntryShape::V001 { slot: 100, index: 3, num_hashes: 50, executed_tx_count: 7 };
    assert_eq!(p.handle_entry(&busy), NotifyOutcome::Attempted(PublishOutcome::Enqueued));
}

#[test]
fn load_uses_configured_address() {
    let p = Publisher::load(TOPIC.to_string(), Some("b1:9092,b2:9092".to_string()))
        .expect("producer creation does not contact the brokers");
    let tx = TransactionShape::V001 { signature: "abc".to_string(), is_vote: false };
    assert_eq!(p.handle_transaction(&tx, 42), NotifyOutcome::Attempted(PublishOutcome::Enqueued));
}

#[test]
fn forced_creation_failure_is_fatal() {
    let r = Publisher::from_creation(TOPIC.to_string(), Err("broker refused".to_string()));
    let e = match r {
        Ok(_) => panic!("creation failure must surface"),
        Err(e) => e,
    };
    assert_eq!(e.message, "broker refused");
}

#[test]
fn empty_entry_is_filtered_before_any_publish() {
    let p = Publisher::load(TOPIC.to_string(), None).unwrap();
    let empty = EntryShape::V001 { slot: 100, index: 3, num_hashes: 50, executed_tx_count: 0 };
    assert_eq!(p.handle_entry(&empty), NotifyOutcome::Filtered);
}

#[test]
fn unrecognized_shapes_never_reach_a_publish() {
    let p = Publisher::load(TOPIC.to_string(), None).unwrap();
    assert_eq!(p.handle_transaction(&TransactionShape::Unrecognized, 5), NotifyOutcome::Unsupported);
    assert_eq!(p.handle_entry(&EntryShape::Unrecognized), NotifyOutcome::Unsupported);
}

#[test]
fn publish_without_producer_is_a_no_op() {
    let p = Publisher::new(TOPIC.to_string());
    let tx = CanonicalTransactionEvent { slot: 42, signature: "abc".to_string(), is_vote: false };
    let entry = CanonicalEntryEvent { slot: 100, index: 3, num_hashes: 50, executed_tx_count: 7 };
    assert_eq!(p.publish_transaction(&tx), PublishOutcome::NotConnected);
    assert_eq!(p.publish_entry(&entry), PublishOutcome::NotConnected);
}

#[test]
fn publish_after_shutdown_is_a_no_op() {
    let mut p = Publisher::new(TOPIC.to_string());
    p.initialize("localhost:9092").expect("local producer creation");
    let tx = TransactionShape::V001 { signature: "abc".to_string(), is_vote: false };
    assert_eq!(p.handle_transaction(&tx, 42), NotifyOutcome::Attempted(PublishOutcome::Enqueued));
    p.shutdown();
    assert_eq!(
        p.handle_transaction(&tx, 43),
        NotifyOutcome::Attempted(PublishOutcome::NotConnected)
    );
}

#[test]
fn all_known_shapes_reach_exactly_one_publish_attempt() {
    let p = Publisher::load(TOPIC.to_string(), None).unwrap();
    let shapes = [
        TransactionShape::V001 { signature: "abc".to_string(), is_vote: false },
        TransactionShape::V002 { signature: "abc".to_string(), is_vote: true, index: 1 },
        TransactionShape::V003 { signature: "abc".to_string(), is_vote: false, index: 2 },
    ];
    for shape in shapes.iter() {
        assert_eq!(
            p.handle_transaction(shape, 9),
            NotifyOutcome::Attempted(PublishOutcome::Enqueued)
        );
    }
    let entries = [
        EntryShape::V001 { slot: 1, index: 0, num_hashes: 2, executed_tx_count: 3 },
        EntryShape::V002 {
            slot: 1,
            index: 0,
            num_hashes: 2,
            executed_tx_count: 3,
            starting_tx_index: 5,
        },
    ];
    for shape in entries.iter() {
        assert_eq!(p.handle_entry(shape), NotifyOutcome::Attempted(PublishOutcome::Enqueued));
    }
}
