use shuidui::batching::{SampleBuffer, BUFFER_FLUSH_SIZE};

#[test]
fn buffer_flushes_at_ten() {
    let mut b: SampleBuffer<u32, i64> = SampleBuffer::new();
    for i in 0..(BUFFER_FLUSH_SIZE as u32 - 1) {
        b.record(i, -(i as i64));
        assert!(b.take_if_full().is_none());
    }
    b.record(9, -9);
    let (s, d) = b.take_if_full().expect("ten samples make a batch");
    assert_eq!(s, (0..10).collect::<Vec<u32>>());
    assert_eq!(d, (0..10).map(|i| -(i as i64)).collect::<Vec<i64>>());
    assert_eq!(b.pending(), 0);
    assert!(b.take_if_full().is_none());
}

#[test]
fn buffer_take_pending() {
    let mut b: SampleBuffer<String, u8> = SampleBuffer::new();
    assert!(b.take_pending().is_none());
    b.record("a".to_string(), 1);
    b.record("b".to_string(), 2);
    let (s, d) = b.take_pending().expect("two samples wait");
    assert_eq!(s, vec!["a".to_string(), "b".to_string()]);
    assert_eq!(d, vec![1, 2]);
    assert!(b.take_pending().is_none());
}

#[test]
fn buffer_keeps_order_across_batches() {
    let mut b: SampleBuffer<u32, u32> = SampleBuffer::new();
    let mut written = Vec::new();
    for i in 0..25u32 {
        b.record(i, i * 2);
        if let Some((s, d)) = b.take_if_full() {
            assert_eq!(s.len(), d.len());
            written.extend(s);
        }
    }
    assert_eq!(b.pending(), 5);
    let (rest, _) = b.take_pending().unwrap();
    written.extend(rest);
    assert_eq!(written, (0..25).collect::<Vec<u32>>());
}
