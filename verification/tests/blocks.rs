use nanometers::audio::{count_sample, PEAK_BLOCK_LENGTH, VECTOR_BLOCK_LENGTH, WAVEFORM_BLOCK_LENGTH};

#[test]
fn block_completes_at_its_length() {
    assert_eq!(count_sample(0, 3), (1, false));
    assert_eq!(count_sample(1, 3), (2, false));
    assert_eq!(count_sample(2, 3), (0, true));
    assert_eq!(count_sample(0, VECTOR_BLOCK_LENGTH), (0, true));
}

#[test]
fn blocks_every_length() {
    for len in [WAVEFORM_BLOCK_LENGTH, PEAK_BLOCK_LENGTH] {
        let mut index = 0;
        let mut done = Vec::new();
        for n in 1..=3 * len {
            let (next, complete) = count_sample(index, len);
            index = next;
            assert_eq!(index, n % len);
            if complete {
                done.push(n);
            }
        }
        assert_eq!(done, vec![len, 2 * len, 3 * len]);
    }
}
