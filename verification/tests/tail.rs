use sentinel_rs::tail::{last_bytes, mark_truncated, tail_bytes};

#[test]
fn tail_bytes_truncates_correctly() {
    let data = b"abcdefghijklmnopqrstuvwxyz";
    let result = tail_bytes(data, 10);
    assert_eq!(result, "… (truncated, showing last 10 bytes)\nqrstuvwxyz");
}

#[test]
fn tail_bytes_no_truncation() {
    let data = b"hello";
    let result = tail_bytes(data, 10);
    assert_eq!(result, "hello");
}

#[test]
fn tail_bytes_exact_boundary() {
    let data = b"exact10!!";
    let result = tail_bytes(data, 9);
    assert_eq!(result, "exact10!!");
}

#[test]
fn tail_bytes_handles_non_utf8() {
    let data = [0x66, 0xff, 0x6f];
    let result = tail_bytes(&data, 10);
    assert_eq!(result, String::from_utf8_lossy(&data));
}

#[test]
fn tail_bytes_replaces_malformed_byte() {
    let data = [0x66, 0xff, 0x6f];
    assert_eq!(tail_bytes(&data, 10), "f\u{fffd}o");
}

#[test]
fn tail_bytes_zero_max_is_marker_only() {
    assert_eq!(tail_bytes(b"abc", 0), "… (truncated, showing last 0 bytes)\n");
    assert_eq!(tail_bytes(b"", 0), "");
}

#[test]
fn tail_bytes_split_character_is_replaced() {
    let data = "aé".as_bytes();
    assert_eq!(data.len(), 3);
    assert_eq!(tail_bytes(data, 1), "… (truncated, showing last 1 bytes)\n\u{fffd}");
    assert_eq!(tail_bytes(data, 2), "… (truncated, showing last 2 bytes)\né");
}

#[test]
fn tail_bytes_one_byte_over_the_limit() {
    assert_eq!(tail_bytes(b"0123456789x", 10), "… (truncated, showing last 10 bytes)\n123456789x");
}

#[test]
fn last_bytes_picks_the_end() {
    assert_eq!(last_bytes(b"abcdef", 2), b"ef");
    assert_eq!(last_bytes(b"abcdef", 6), b"abcdef");
    assert_eq!(last_bytes(b"abcdef", 60), b"abcdef");
    assert_eq!(last_bytes(b"abcdef", 0), b"");
}

#[test]
fn mark_truncated_names_the_count() {
    assert_eq!(mark_truncated(1500, "tail"), "… (truncated, showing last 1500 bytes)\ntail");
}
