use vorbis_encoder::OutputBuffer;

#[test]
fn new_buffer_is_empty() {
    let b = OutputBuffer::new();
    assert_eq!(b.length(), 0);
    assert_eq!(b.total, 0);
}

#[test]
fn append_then_drain_round_trips_in_order() {
    let mut b = OutputBuffer::new();
    b.append(vec![1, 2, 3]);
    b.append(vec![]);
    b.append(vec![4, 5]);
    assert_eq!(b.length(), 5);
    assert_eq!(b.total, 5);
    let out = b.drain();
    assert_eq!(out, vec![1, 2, 3, 4, 5]);
    assert_eq!(b.length(), 0);
    assert_eq!(b.total, 5);
}

#[test]
fn total_keeps_growing_after_a_drain() {
    let mut b = OutputBuffer::new();
    b.append(vec![9, 9]);
    let _ = b.drain();
    b.append(vec![7]);
    assert_eq!(b.total, 3);
    assert_eq!(b.drain(), vec![7]);
    assert_eq!(b.total, 3);
    assert_eq!(b.length(), 0);
}
