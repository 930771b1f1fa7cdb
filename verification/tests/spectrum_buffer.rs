use nanometers::utils::{SpectrumCalcBuffer, SPECTRUM_FRAME, SPECTRUM_HALF};

#[test]
fn frames_and_second_halves() {
    let mut buf = SpectrumCalcBuffer::<u32>::new();
    let mut frames = Vec::new();
    for i in 0..(2 * SPECTRUM_FRAME as u32) {
        let (slot, other_slot) = buf.slots();
        assert_eq!(slot, i as usize % SPECTRUM_FRAME);
        assert_eq!(other_slot.is_some(), slot >= SPECTRUM_HALF);
        let v = (i, i + 1, i + 2, i + 3);
        let other = other_slot.map(|_| (i, 0, 0, 0));
        if let Some(frame) = buf.push(v, other) {
            frames.push(frame);
        }
    }
    assert_eq!(frames.len(), 2);
    assert_eq!(frames[0].l, (0..SPECTRUM_FRAME as u32).collect::<Vec<_>>());
    assert_eq!(frames[1].r, (SPECTRUM_FRAME as u32 + 1..2 * SPECTRUM_FRAME as u32 + 1).collect::<Vec<_>>());
    // the other buffer got the second half of both frames
    assert_eq!(buf.a.l.len(), SPECTRUM_FRAME);
    assert_eq!(buf.a.l[0], SPECTRUM_HALF as u32);
    assert!(buf.b.l.is_empty());
    buf.clear();
    assert!(buf.a.l.is_empty() && buf.b.s.is_empty());
}
