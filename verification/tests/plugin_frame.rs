use nanometers::audio::{plugin_frame, ring_segment, split_channels, PluginRingReader};

#[test]
fn segment_without_wrap() {
    let buf = [0u32, 1, 2, 3, 4, 5, 6, 7];
    assert_eq!(ring_segment(&buf, 2, 5), vec![2, 3, 4]);
}

#[test]
fn segment_with_wrap() {
    let buf = [0u32, 1, 2, 3, 4, 5, 6, 7];
    assert_eq!(ring_segment(&buf, 6, 2), vec![6, 7, 0, 1]);
    assert_eq!(ring_segment(&buf, 3, 3), vec![3, 4, 5, 6, 7, 0, 1, 2]);
    assert_eq!(ring_segment(&buf, 8, 0), Vec::<u32>::new());
}

#[test]
fn consecutive_reads_join() {
    let buf = [0u32, 1, 2, 3, 4, 5, 6, 7];
    let mut joined = ring_segment(&buf, 6, 1);
    joined.extend(ring_segment(&buf, 1, 4));
    assert_eq!(joined, ring_segment(&buf, 6, 4));
}

#[test]
fn split_halves() {
    assert_eq!(split_channels(vec![1u32, 2, 3, 4]), vec![vec![1, 2], vec![3, 4]]);
    assert_eq!(split_channels(vec![1u32, 2, 3]), vec![vec![1], vec![2, 3]]);
    assert_eq!(split_channels(Vec::<u32>::new()), vec![vec![], vec![]]);
}

#[test]
fn frame_reads_and_advances() {
    let buf = [0u32, 10, 11, 12, 13, 14];
    let (channels, next) = plugin_frame(&buf, 4, 2);
    assert_eq!(channels, vec![vec![13, 14], vec![0, 10]]);
    assert_eq!(next, 2);
}

#[test]
fn reader_tracks_position() {
    let buf = [0u32, 1, 2, 3, 4, 5, 6, 7];
    let mut reader = PluginRingReader::new();
    assert_eq!(reader.last, 0);
    assert_eq!(reader.read(&buf, 4), vec![vec![0, 1], vec![2, 3]]);
    assert_eq!(reader.last, 4);
    assert_eq!(reader.read(&buf, 1), vec![vec![4, 5], vec![6, 7, 0]]);
    assert_eq!(reader.last, 1);
}
