use nanometers::utils::RawData;

#[test]
fn keep_last_drops_front() {
    let mut d = RawData::<u32>::new();
    d.l = vec![1, 2, 3, 4, 5];
    d.r = vec![11, 12, 13, 14, 15];
    d.m = vec![21, 22, 23, 24, 25, 26];
    d.s = vec![31, 32, 33];
    d.keep_last(2);
    assert_eq!(d.l, vec![4, 5]);
    assert_eq!(d.r, vec![14, 15]);
    assert_eq!(d.m, vec![24, 25, 26]);
    assert_eq!(d.s, Vec::<u32>::new());
}

#[test]
fn keep_last_short_is_unchanged() {
    let mut d = RawData::<u32>::new();
    d.l = vec![1, 2];
    d.r = vec![3];
    d.keep_last(5);
    assert_eq!(d.l, vec![1, 2]);
    assert_eq!(d.r, vec![3]);
}

#[test]
fn clear_empties() {
    let mut d = RawData::<u32>::new();
    d.l = vec![1];
    d.m = vec![2];
    d.clear();
    assert!(d.l.is_empty() && d.r.is_empty() && d.m.is_empty() && d.s.is_empty());
}
