use nanometers::utils::RingBuffer;

fn contents(rb: &RingBuffer<u32>) -> Vec<u32> {
    (0..rb.len()).map(|i| *rb.get(i).unwrap()).collect()
}

#[test]
fn new_is_empty() {
    let rb: RingBuffer<u32> = RingBuffer::new(4);
    assert_eq!(rb.len(), 0);
    assert_eq!(rb.get(0), None);
}

#[test]
fn new_with_default_is_full() {
    let rb = RingBuffer::new_with_default(3, 7u32);
    assert_eq!(rb.len(), 3);
    assert_eq!(contents(&rb), vec![7, 7, 7]);
    assert_eq!(rb.get(3), None);
}

#[test]
fn new_with_default_zero_size() {
    let rb = RingBuffer::new_with_default(0, 7u32);
    assert_eq!(rb.len(), 0);
}

#[test]
fn push_grows_until_full_then_drops_oldest() {
    let mut rb = RingBuffer::new(3);
    rb.push(1u32);
    rb.push(2);
    assert_eq!(contents(&rb), vec![1, 2]);
    rb.push(3);
    assert_eq!(contents(&rb), vec![1, 2, 3]);
    rb.push(4);
    assert_eq!(contents(&rb), vec![2, 3, 4]);
    rb.push(5);
    assert_eq!(contents(&rb), vec![3, 4, 5]);
}

#[test]
fn push_then_read_newest() {
    let mut rb = RingBuffer::new(2);
    for v in 10u32..20 {
        rb.push(v);
        assert_eq!(rb.get(rb.len() - 1), Some(&v));
        assert!(rb.len() <= 2);
    }
}

#[test]
fn keeps_newest_items() {
    let mut rb = RingBuffer::new(4);
    for v in 0u32..10 {
        rb.push(v);
    }
    assert_eq!(contents(&rb), vec![6, 7, 8, 9]);
}

#[test]
fn zero_capacity_grows() {
    let mut rb = RingBuffer::new(0);
    rb.push(1u32);
    rb.push(2u32);
    assert_eq!(contents(&rb), vec![1, 2]);
}

#[test]
fn push_slice_that_fits_changes_nothing() {
    let mut rb = RingBuffer::new(5);
    rb.push(1u32);
    rb.push_slice(&[2, 3, 4]);
    assert_eq!(contents(&rb), vec![1]);
}

#[test]
fn push_slice_overflow_pushes_surplus() {
    let mut rb = RingBuffer::new_with_default(3, 0u32);
    rb.push_slice(&[1, 2]);
    assert_eq!(contents(&rb), vec![0, 1, 2]);
    let mut rb = RingBuffer::new(3);
    rb.push(9u32);
    rb.push(8);
    rb.push_slice(&[1, 2, 3, 4]);
    // surplus is 2 + 4 - 3 = 3: items 1, 2, 3 are pushed, the window keeps two
    assert_eq!(contents(&rb), vec![2, 3]);
}

#[test]
fn push_slice_on_empty_keeps_one() {
    let mut rb = RingBuffer::new(2);
    rb.push_slice(&[5u32, 6, 7, 8]);
    // surplus is 0 + 4 - 2 = 2: 5 then 6 are pushed, each dropping the oldest
    assert_eq!(contents(&rb), vec![6]);
}

#[test]
fn capacity_is_kept() {
    let mut rb = RingBuffer::new(3);
    assert_eq!(rb.capacity(), 3);
    rb.push(1u32);
    rb.push_slice(&[2, 3, 4, 5]);
    assert_eq!(rb.capacity(), 3);
    assert!(rb.len() <= rb.capacity());
}
