use sentry_process::capture::RollingBuffer;
use sentry_process::snapshot::{default_capacity, format_snapshot, notice_str};
use sentry_process::MAXIMUM_CHARACTERS;

#[test]
fn notice_is_the_documented_text() {
    assert_eq!(
        notice_str(),
        "[previous content removed because of size limits]\n"
    );
}

#[test]
fn default_capacity_leaves_room_for_the_notice() {
    assert_eq!(default_capacity(), MAXIMUM_CHARACTERS - notice_str().len());
    assert_eq!(default_capacity(), 16315);
}

#[test]
fn snapshot_within_capacity_is_exact() {
    let mut buf = RollingBuffer::new(1024);
    buf.ingest(b"hello\n");
    assert_eq!(buf.total_ingested(), 6);
    assert!(!buf.truncated());
    let snap = format_snapshot(&buf);
    assert_eq!(snap.text, "hello\n");
    assert!(!snap.truncated);
}

#[test]
fn snapshot_at_exact_capacity_is_not_truncated() {
    let mut buf = RollingBuffer::new(4);
    buf.ingest(b"abcd");
    let snap = format_snapshot(&buf);
    assert_eq!(snap.text, "abcd");
    assert!(!snap.truncated);
}

#[test]
fn one_byte_past_capacity_truncates() {
    let mut buf = RollingBuffer::new(4);
    buf.ingest(b"abcde");
    assert!(buf.truncated());
    let snap = format_snapshot(&buf);
    let mut expected = String::from(notice_str());
    expected.push_str("bcde");
    assert_eq!(snap.text, expected);
    assert!(snap.truncated);
}

#[test]
fn eviction_keeps_the_most_recent_window() {
    let mut buf = RollingBuffer::new(3);
    buf.ingest(b"abcdefg");
    assert_eq!(buf.snapshot_bytes(), b"efg".to_vec());
    assert_eq!(buf.total_ingested(), 7);
}

#[test]
fn ingest_counts_across_calls() {
    let mut buf = RollingBuffer::new(8);
    buf.ingest(b"ab");
    buf.ingest(b"");
    buf.ingest(b"cd");
    assert_eq!(buf.total_ingested(), 4);
    assert_eq!(buf.snapshot_bytes(), b"abcd".to_vec());
}

#[test]
fn snapshot_is_idempotent() {
    let mut buf = RollingBuffer::new(4);
    buf.ingest(b"abcdef");
    let first = format_snapshot(&buf);
    let second = format_snapshot(&buf);
    assert_eq!(first.text, second.text);
    assert_eq!(first.truncated, second.truncated);
}

#[test]
fn empty_buffer_yields_empty_untruncated_snapshot() {
    let buf = RollingBuffer::new(default_capacity());
    let snap = format_snapshot(&buf);
    assert_eq!(snap.text, "");
    assert!(!snap.truncated);
}

#[test]
fn malformed_bytes_are_replaced_not_fatal() {
    let mut buf = RollingBuffer::new(16);
    buf.ingest(&[0xff, b'a']);
    let snap = format_snapshot(&buf);
    assert_eq!(snap.text, "\u{FFFD}a");
    assert!(!snap.truncated);
}

#[test]
fn long_stream_keeps_notice_plus_last_capacity_bytes() {
    let capacity = default_capacity();
    let mut buf = RollingBuffer::new(capacity);
    let mut data: Vec<u8> = Vec::new();
    for _ in 0..10_000 {
        data.extend_from_slice(b"x\n");
    }
    assert_eq!(data.len(), 20_000);
    buf.ingest(&data);
    let snap = format_snapshot(&buf);
    assert!(snap.truncated);
    assert_eq!(snap.text.len(), MAXIMUM_CHARACTERS);
    assert!(snap.text.starts_with(notice_str()));
    let tail = &snap.text.as_bytes()[notice_str().len()..];
    assert_eq!(tail.len(), capacity);
    assert_eq!(tail, &data[data.len() - capacity..]);
}
