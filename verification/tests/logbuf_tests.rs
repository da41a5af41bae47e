use sidecar_supervisor::logbuf::LogBuffer;
use sidecar_supervisor::logbuf::StreamTag;
use sidecar_supervisor::MAX_LOG_ENTRIES;

#[test]
fn empty_buffer_snapshot_is_empty() {
    let buf = LogBuffer::new();
    assert_eq!(buf.size(), 0);
    assert_eq!(buf.snapshot(), "");
}

#[test]
fn append_tags_and_concatenates_in_order() {
    let mut buf = LogBuffer::new();
    buf.append(StreamTag::Stdout, "server starting\n");
    buf.append(StreamTag::Stderr, "warning: slow disk\n");
    buf.append(StreamTag::Stdout, "listening\n");
    assert_eq!(buf.size(), 3);
    assert_eq!(
        buf.snapshot(),
        "[STDOUT] server starting\n[STDERR] warning: slow disk\n[STDOUT] listening\n"
    );
}

#[test]
fn fifo_eviction_keeps_exactly_the_last_200_in_order() {
    let mut buf = LogBuffer::new();
    let total = 250;
    for i in 0..total {
        buf.append(StreamTag::Stdout, &format!("line {}\n", i));
    }
    assert_eq!(buf.size(), MAX_LOG_ENTRIES);
    let snapshot = buf.snapshot();
    let mut expected = String::new();
    for i in (total - MAX_LOG_ENTRIES)..total {
        expected.push_str(&format!("[STDOUT] line {}\n", i));
    }
    assert_eq!(snapshot, expected);
}

#[test]
fn at_capacity_no_eviction_happens() {
    let mut buf = LogBuffer::new();
    for i in 0..MAX_LOG_ENTRIES {
        buf.append(StreamTag::Stderr, &format!("{}\n", i));
    }
    assert_eq!(buf.size(), MAX_LOG_ENTRIES);
    assert!(buf.snapshot().starts_with("[STDERR] 0\n"));
}
