use chain_decoder::sink::{block_dir, decimal, object_key, record_path, MemorySink};

#[test]
fn decimal_writes_numbers() {
    assert_eq!(decimal(0), "0");
    assert_eq!(decimal(7), "7");
    assert_eq!(decimal(10), "10");
    assert_eq!(decimal(109), "109");
    assert_eq!(decimal(1234567890), "1234567890");
    assert_eq!(decimal(u32::MAX), "4294967295");
}

#[test]
fn decimal_agrees_with_std() {
    for n in [0u32, 1, 9, 10, 11, 99, 100, 101, 999, 1000, 65535, 65536, 4294967294] {
        assert_eq!(decimal(n), n.to_string());
    }
}

#[test]
fn object_key_strips_the_prefix() {
    assert_eq!(object_key("0xabc123"), "abc123");
    assert_eq!(object_key("0x"), "");
    assert_eq!(object_key("0x0x12"), "0x12");
}

#[test]
fn object_key_keeps_a_hash_without_prefix() {
    assert_eq!(object_key("h1"), "h1");
    assert_eq!(object_key("abc"), "abc");
    assert_eq!(object_key(""), "");
    assert_eq!(object_key("0"), "0");
    assert_eq!(object_key("x0ab"), "x0ab");
    assert_eq!(object_key("0Xab"), "0Xab");
}

#[test]
fn object_key_counts_characters_not_bytes() {
    assert_eq!(object_key("0x\u{e9}\u{4e2d}"), "\u{e9}\u{4e2d}");
    assert_eq!(object_key("\u{e9}0x"), "\u{e9}0x");
}

#[test]
fn block_dir_is_under_out() {
    assert_eq!(block_dir(0), "out/0");
    assert_eq!(block_dir(15000321), "out/15000321");
}

#[test]
fn record_path_is_partitioned_by_block() {
    assert_eq!(record_path(42, "0xdeadbeef"), "out/42/deadbeef.json");
    assert_eq!(record_path(0, "h1"), "out/0/h1.json");
    assert_eq!(record_path(u32::MAX, "0x"), "out/4294967295/.json");
}

#[test]
fn empty_sink_holds_nothing() {
    let sink: MemorySink<String> = MemorySink::new();
    assert_eq!(sink.len(), 0);
    assert_eq!(sink.get("k"), None);
    assert!(!sink.contains("k"));
}

#[test]
fn second_write_replaces_the_first() {
    let mut sink: MemorySink<String> = MemorySink::new();
    sink.put("k".to_string(), "first".to_string());
    sink.put("k".to_string(), "second".to_string());
    assert_eq!(sink.get("k"), Some(&"second".to_string()));
    assert_eq!(sink.len(), 1);
}

#[test]
fn same_write_twice_is_one_record() {
    let mut sink: MemorySink<Vec<u8>> = MemorySink::new();
    sink.put("k".to_string(), vec![1, 2, 3]);
    sink.put("k".to_string(), vec![1, 2, 3]);
    assert_eq!(sink.get("k"), Some(&vec![1u8, 2, 3]));
    assert_eq!(sink.len(), 1);
}

#[test]
fn a_write_leaves_other_keys() {
    let mut sink: MemorySink<u32> = MemorySink::new();
    sink.put("a".to_string(), 1);
    sink.put("b".to_string(), 2);
    sink.put("a".to_string(), 3);
    assert_eq!(sink.get("a"), Some(&3));
    assert_eq!(sink.get("b"), Some(&2));
    assert!(sink.contains("a"));
    assert!(!sink.contains("c"));
    assert_eq!(sink.len(), 2);
}
