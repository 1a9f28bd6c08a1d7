use raywatch_geyser::entry_message;
use raywatch_geyser::partition_key;
use raywatch_geyser::transaction_message;
use raywatch_geyser::u64_to_dec;
use raywatch_geyser::CanonicalEntryEvent;
use raywatch_geyser::CanonicalTransactionEvent;

fn text(payload: &[char]) -> String {
    payload.iter().collect()
}

#[test]
fn entry_payload_matches_wire_format() {
    let ev = CanonicalEntryEvent { slot: 100, index: 3, num_hashes: 50, executed_tx_count: 7 };
    let m = entry_message(&ev);
    assert_eq!(
        text(&m.payload),
        "{\"slot\":100,\"idx\":3,\"num_hashes\":50,\"executed_tx_count\":7}"
    );
    assert_eq!(m.key, vec![0, 0, 0, 0, 0, 0, 0, 0x64]);
}

#[test]
fn transaction_payload_matches_wire_format() {
    let ev = CanonicalTransactionEvent { slot: 42, signature: "abc".to_string(), is_vote: false };
    let m = transaction_message(&ev);
    assert_eq!(text(&m.payload), "{\"slot\":42,\"signature\":\"abc\",\"is_vote\":false}");
    assert_eq!(m.key, vec![0, 0, 0, 0, 0, 0, 0, 0x2a]);
}

#[test]
fn vote_flag_serializes_as_true() {
    let ev = CanonicalTransactionEvent { slot: 1, signature: "s".to_string(), is_vote: true };
    let m = transaction_message(&ev);
    assert_eq!(text(&m.payload), "{\"slot\":1,\"signature\":\"s\",\"is_vote\":true}");
}

#[test]
fn signature_is_json_escaped() {
    let ev = CanonicalTransactionEvent {
        slot: 5,
        signature: "a\"b\\c\nd\u{1}".to_string(),
        is_vote: false,
    };
    let m = transaction_message(&ev);
    assert_eq!(
        text(&m.payload),
        "{\"slot\":5,\"signature\":\"a\\\"b\\\\c\\nd\\u0001\",\"is_vote\":false}"
    );
}

#[test]
fn payloads_parse_back_as_json() {
    let ev = CanonicalEntryEvent { slot: 100, index: 3, num_hashes: 50, executed_tx_count: 7 };
    let m = entry_message(&ev);
    let v: serde_json::Value = serde_json::from_str(&text(&m.payload)).unwrap();
    assert_eq!(v["slot"].as_u64(), Some(100));
    assert_eq!(v["idx"].as_u64(), Some(3));
    assert_eq!(v["num_hashes"].as_u64(), Some(50));
    assert_eq!(v["executed_tx_count"].as_u64(), Some(7));

    let tx = CanonicalTransactionEvent {
        slot: 42,
        signature: "a\"b\\c".to_string(),
        is_vote: true,
    };
    let tm = transaction_message(&tx);
    let tv: serde_json::Value = serde_json::from_str(&text(&tm.payload)).unwrap();
    assert_eq!(tv["slot"].as_u64(), Some(42));
    assert_eq!(tv["signature"].as_str(), Some("a\"b\\c"));
    assert_eq!(tv["is_vote"].as_bool(), Some(true));
}

#[test]
fn decimal_rendering_covers_the_edges() {
    let zero: String = u64_to_dec(0).iter().collect();
    assert_eq!(zero, "0");
    let max: String = u64_to_dec(u64::MAX).iter().collect();
    assert_eq!(max, "18446744073709551615");
}

#[test]
fn partition_key_is_big_endian_slot() {
    assert_eq!(partition_key(100), vec![0, 0, 0, 0, 0, 0, 0, 0x64]);
    assert_eq!(partition_key(0), vec![0; 8]);
    assert_eq!(partition_key(u64::MAX), vec![0xff; 8]);
    assert_eq!(partition_key(0x0102030405060708), vec![1, 2, 3, 4, 5, 6, 7, 8]);
    assert_eq!(partition_key(100), 100u64.to_be_bytes().to_vec());
}

#[test]
fn transaction_and_entry_messages_share_the_slot_key() {
    let tx = CanonicalTransactionEvent { slot: 100, signature: "abc".to_string(), is_vote: false };
    let entry = CanonicalEntryEvent { slot: 100, index: 3, num_hashes: 50, executed_tx_count: 7 };
    assert_eq!(transaction_message(&tx).key, entry_message(&entry).key);
}
