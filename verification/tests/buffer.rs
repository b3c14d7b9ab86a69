use syggrel_chat::buffer::SlidingWindowBuffer;

const MIB: usize = 1024 * 1024;

#[test]
fn push_respects_both_limits() {
    let mut buffer = SlidingWindowBuffer::new(256, 16 * MIB);
    for i in 0..1000 {
        buffer.add_message(format!("message number {}", i));
        assert!(buffer.len() <= 256);
        assert!(buffer.total_byte_count() <= 16 * MIB);
    }
    assert_eq!(buffer.len(), 256);
}

#[test]
fn two_large_messages_keep_only_the_second() {
    // Scenario: two 10 MiB messages under a 16 MiB byte limit.
    let mut buffer = SlidingWindowBuffer::new(256, 16 * MIB);
    let first = "a".repeat(10 * MIB);
    let second = "b".repeat(10 * MIB);
    buffer.add_message(first);
    assert_eq!(buffer.len(), 1);
    assert_eq!(buffer.total_byte_count(), 10 * MIB);
    buffer.add_message(second.clone());
    assert_eq!(buffer.len(), 1);
    assert_eq!(buffer.total_byte_count(), 10 * MIB);
    let drained = buffer.get_next_n_messages(10);
    assert_eq!(drained, vec![second]);
}

#[test]
fn drain_returns_oldest_in_arrival_order() {
    let mut buffer = SlidingWindowBuffer::new(256, 16 * MIB);
    buffer.add_message("one".to_string());
    buffer.add_message("two".to_string());
    buffer.add_message("three".to_string());
    let drained = buffer.get_next_n_messages(2);
    assert_eq!(drained, vec!["one".to_string(), "two".to_string()]);
    assert_eq!(buffer.len(), 1);
    let rest = buffer.get_next_n_messages(5);
    assert_eq!(rest, vec!["three".to_string()]);
    assert_eq!(buffer.len(), 0);
    assert_eq!(buffer.total_byte_count(), 0);
}

#[test]
fn drain_of_empty_buffer_returns_nothing() {
    let mut buffer = SlidingWindowBuffer::new(256, 16 * MIB);
    let drained = buffer.get_next_n_messages(4);
    assert!(drained.is_empty());
}

#[test]
fn count_limit_evicts_oldest() {
    let mut buffer = SlidingWindowBuffer::new(2, 16 * MIB);
    buffer.add_message("one".to_string());
    buffer.add_message("two".to_string());
    buffer.add_message("three".to_string());
    assert_eq!(buffer.len(), 2);
    let drained = buffer.get_next_n_messages(2);
    assert_eq!(drained, vec!["two".to_string(), "three".to_string()]);
}

#[test]
fn byte_limit_recomputes_total_exactly() {
    let mut buffer = SlidingWindowBuffer::new(256, 10);
    buffer.add_message("aaaa".to_string());
    buffer.add_message("bbbb".to_string());
    assert_eq!(buffer.total_byte_count(), 8);
    // 4 + 4 + 4 > 10: the oldest goes, the total drops by its exact length.
    buffer.add_message("cccc".to_string());
    assert_eq!(buffer.len(), 2);
    assert_eq!(buffer.total_byte_count(), 8);
    let drained = buffer.get_next_n_messages(3);
    assert_eq!(drained, vec!["bbbb".to_string(), "cccc".to_string()]);
}

#[test]
fn message_over_the_byte_limit_empties_the_buffer() {
    let mut buffer = SlidingWindowBuffer::new(4, 8);
    buffer.add_message("ok".to_string());
    buffer.add_message("way too long for the window".to_string());
    assert_eq!(buffer.len(), 0);
    assert_eq!(buffer.total_byte_count(), 0);
}

#[test]
fn byte_length_counts_utf8_bytes() {
    let mut buffer = SlidingWindowBuffer::new(256, 16 * MIB);
    buffer.add_message("héllo".to_string());
    assert_eq!(buffer.total_byte_count(), 6);
}
