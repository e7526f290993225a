use audio_capture::ring_buffer::RingBuffer;

#[test]
fn scenario_capacity_four_drops_oldest() {
    let mut b: RingBuffer<f32> = RingBuffer::new(4);
    b.append(&[1.0, 2.0, 3.0]);
    b.append(&[4.0, 5.0]);
    assert_eq!(b.snapshot(usize::MAX), vec![2.0, 3.0, 4.0, 5.0]);
    assert_eq!(b.len(), 4);
}

#[test]
fn monotone_stream_keeps_last_capacity_samples() {
    let cap = 7usize;
    let mut b: RingBuffer<u32> = RingBuffer::new(cap);
    let mut next = 0u32;
    for batch in [3usize, 0, 5, 1, 9, 2, 7] {
        let frames: Vec<u32> = (next..next + batch as u32).collect();
        next += batch as u32;
        b.append(&frames);
        assert!(b.len() <= cap);
        let lo = next.saturating_sub(cap as u32);
        let expected: Vec<u32> = (lo..next).collect();
        assert_eq!(b.snapshot(cap), expected);
    }
}

#[test]
fn batch_larger_than_capacity_keeps_its_tail() {
    let mut b: RingBuffer<i32> = RingBuffer::new(3);
    b.append(&[9, 9]);
    b.append(&[1, 2, 3, 4, 5]);
    assert_eq!(b.snapshot(10), vec![3, 4, 5]);
}

#[test]
fn zero_capacity_holds_nothing() {
    let mut b: RingBuffer<i32> = RingBuffer::new(0);
    b.append(&[1, 2]);
    assert_eq!(b.len(), 0);
    assert!(b.snapshot(5).is_empty());
}

#[test]
fn snapshot_returns_most_recent_in_order() {
    let mut b: RingBuffer<i32> = RingBuffer::new(10);
    b.append(&[1, 2, 3, 4, 5]);
    assert_eq!(b.snapshot(2), vec![4, 5]);
    assert_eq!(b.snapshot(0), Vec::<i32>::new());
    assert_eq!(b.snapshot(8), vec![1, 2, 3, 4, 5]);
    assert_eq!(b.len(), 5);
}

#[test]
fn resize_smaller_trims_oldest_and_bounds_appends() {
    let mut b: RingBuffer<i32> = RingBuffer::new(6);
    b.append(&[1, 2, 3, 4, 5, 6]);
    b.resize(2);
    assert_eq!(b.capacity(), 2);
    assert_eq!(b.snapshot(10), vec![5, 6]);
    b.append(&[7, 8, 9]);
    assert_eq!(b.len(), 2);
    assert_eq!(b.snapshot(10), vec![8, 9]);
}

#[test]
fn resize_larger_keeps_samples() {
    let mut b: RingBuffer<i32> = RingBuffer::new(2);
    b.append(&[1, 2]);
    b.resize(4);
    b.append(&[3]);
    assert_eq!(b.snapshot(10), vec![1, 2, 3]);
}

#[test]
fn clear_empties_and_keeps_capacity() {
    let mut b: RingBuffer<i32> = RingBuffer::new(3);
    b.append(&[1, 2, 3]);
    b.clear();
    assert_eq!(b.len(), 0);
    assert_eq!(b.capacity(), 3);
    b.append(&[4]);
    assert_eq!(b.snapshot(3), vec![4]);
}
