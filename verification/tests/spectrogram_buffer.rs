use nanometers::utils::{SpectrogramCalcBuffer, SPECTROGRAM_FFT_SIZE, SPECTROGRAM_HOP};

#[test]
fn frames_open_every_hop_and_complete_at_fft_size() {
    let mut buf = SpectrogramCalcBuffer::new();
    assert_eq!(buf.len(), 0);
    let total = SPECTROGRAM_FFT_SIZE + 3 * SPECTROGRAM_HOP;
    let mut done: Vec<(usize, Vec<u32>)> = Vec::new();
    for i in 0..total {
        if let Some(frame) = buf.push_sample(i as u32) {
            done.push((i, frame));
        }
        if i == 0 {
            assert_eq!(buf.len(), 1);
        }
        if i == SPECTROGRAM_HOP - 1 {
            assert_eq!(buf.len(), 2);
        }
    }
    assert_eq!(done.len(), 4);
    for (k, (at, frame)) in done.iter().enumerate() {
        let start = k * SPECTROGRAM_HOP;
        assert_eq!(*at, start + SPECTROGRAM_FFT_SIZE - 1);
        let expected: Vec<u32> = (start..start + SPECTROGRAM_FFT_SIZE).map(|v| v as u32).collect();
        assert_eq!(*frame, expected);
    }
}

#[test]
fn clear_drops_open_frames() {
    let mut buf = SpectrogramCalcBuffer::new();
    for i in 0..1000u32 {
        buf.push_sample(i);
    }
    assert_eq!(buf.len(), 4);
    buf.clear();
    assert_eq!(buf.len(), 0);
    assert_eq!(buf.push_sample(5u32), None);
    assert_eq!(buf.len(), 1);
}

#[test]
fn default_has_no_open_frame() {
    let mut buf: SpectrogramCalcBuffer<u32> = SpectrogramCalcBuffer::default();
    assert_eq!(buf.len(), 0);
    let copy = buf.clone();
    assert_eq!(copy.len(), 0);
    buf.push_sample(1);
    assert_eq!(buf.len(), 1);
}
