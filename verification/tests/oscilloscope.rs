use nanometers::audio::{OscCalcBuffer, SampleSign};
use nanometers::setting::{OscilloscopeCycle, OscilloscopeSetting};

fn sign(last: Option<i32>, m: i32) -> SampleSign {
    let x = match last {
        None => m,
        Some(l) => l * m,
    };
    if x > 0 {
        SampleSign::Positive
    } else if x == 0 {
        SampleSign::Zero
    } else {
        SampleSign::Negative
    }
}

#[test]
fn plain_mode_shows_every_2400_samples() {
    let setting = OscilloscopeSetting { follow_pitch: false, cycle: OscilloscopeCycle::Multi };
    let mut osc = OscCalcBuffer::new();
    let mut shown = Vec::new();
    for i in 0..5000i32 {
        if let Some(frame) = osc.step(i, SampleSign::Positive, setting) {
            shown.push((i, frame.len, frame.data.len(), frame.data[0]));
        }
    }
    assert_eq!(shown, vec![(2399, 2400, 2400, 0), (4799, 2400, 2400, 2400)]);
    assert_eq!(osc.raw.len(), 200);
}

#[test]
fn follow_pitch_waits_for_positive_sample() {
    let setting = OscilloscopeSetting { follow_pitch: true, cycle: OscilloscopeCycle::Multi };
    let mut osc = OscCalcBuffer::new();
    for m in [-3, 0, -1] {
        let s = sign(osc.last, m);
        assert!(osc.step(m, s, setting).is_none());
    }
    assert!(osc.raw.is_empty());
    let s = sign(osc.last, 2);
    osc.step(2, s, setting);
    assert_eq!(osc.raw, vec![2]);
    assert_eq!(osc.last, Some(2));
}

#[test]
fn single_cycle_shows_one_cycle() {
    let setting = OscilloscopeSetting { follow_pitch: true, cycle: OscilloscopeCycle::Single };
    let mut osc = OscCalcBuffer::new();
    let samples = [1, 2, -1, -2, 1, 2, -1, 1];
    let mut shown = None;
    for m in samples {
        let s = sign(osc.last, m);
        if let Some(frame) = osc.step(m, s, setting) {
            shown = Some(frame.data);
            break;
        }
    }
    // the sign changes at the first -1 (a half cycle ends), at 1 (the first
    // whole cycle ends) and at the second -1, where the frame is shown
    assert_eq!(shown, Some(vec![1, 2, -1, -2, 1, 2, -1]));
    assert!(osc.raw.is_empty() && osc.last.is_none() && !osc.even_turn && !osc.first_turn);
}

#[test]
fn follow_pitch_overflow_at_4096() {
    let setting = OscilloscopeSetting { follow_pitch: true, cycle: OscilloscopeCycle::Multi };
    let mut osc = OscCalcBuffer::new();
    let mut shown = Vec::new();
    for i in 0..5000i32 {
        let s = sign(osc.last, 1);
        if let Some(frame) = osc.step(1, s, setting) {
            shown.push((i, frame.len));
        }
    }
    assert_eq!(shown, vec![(4095, 4096)]);
}

#[test]
fn multi_cycle_needs_2400_samples() {
    let setting = OscilloscopeSetting { follow_pitch: true, cycle: OscilloscopeCycle::Multi };
    let mut osc = OscCalcBuffer::new();
    // a square wave of period 100: even half cycles end every 100 samples
    let mut shown = Vec::new();
    for i in 0..3000i32 {
        let m = if (i / 50) % 2 == 0 { 1 } else { -1 };
        let s = sign(osc.last, m);
        if let Some(frame) = osc.step(m, s, setting) {
            shown.push((i, frame.len));
        }
    }
    assert_eq!(shown, vec![(2399, 2400)]);
}
