use nanometers::setting::{
    default_meters, meter_enabled, AudioDevice, AudioDeviceSetting, MeterList, ModuleList,
    OscilloscopeCycle, OscilloscopeSetting, WaveformChannel, WaveformHistory, WaveformMode,
    WaveformSetting,
};
use nanometers::Settings;

#[test]
fn settings_new_geometry() {
    let s = Settings::new();
    assert_eq!(s.window_width, 800);
    assert_eq!(s.window_height, 600);
    assert_eq!(s.window_x, 100);
    assert_eq!(s.window_y, 100);
}

#[test]
fn defaults() {
    assert_eq!(AudioDevice::default(), AudioDevice::OutputCapture);
    assert_eq!(AudioDeviceSetting::default().device, AudioDevice::OutputCapture);
    let o = OscilloscopeSetting::default();
    assert!(!o.follow_pitch);
    assert_eq!(o.cycle, OscilloscopeCycle::Multi);
    let w = WaveformSetting::default();
    assert_eq!(w.channel_1, WaveformChannel::Off);
    assert_eq!(w.channel_2, WaveformChannel::Off);
    assert_eq!(w.mode, WaveformMode::Static);
    assert_eq!(w.peak_history, WaveformHistory::Off);
    assert_eq!(w.speed, 0);
}

#[test]
fn meter_names() {
    assert_eq!(MeterList::Waveform.to_string(), "Waveform");
    assert_eq!(MeterList::Spectrogram.to_string(), "Spectrogram");
    assert_eq!(MeterList::Vectorscope.to_string(), "Vectorscope");
    assert_eq!(MeterList::Oscilloscope.to_string(), "Oscilloscope");
    assert_eq!(MeterList::Spectrum.to_string(), "Spectrum");
    assert_eq!(MeterList::Peak.to_string(), "Peak");
    assert_eq!(MeterList::GPUTest.to_string(), "GPUTest");
}

#[test]
fn module_names() {
    assert_eq!(ModuleList::Waveform.to_string(), "Waveform");
    assert_eq!(ModuleList::Spectrogram.to_string(), "Spectrogram");
    assert_eq!(ModuleList::Vectorscope.to_string(), "Vectorscope");
    assert_eq!(ModuleList::Oscilloscope.to_string(), "Oscilloscope");
    assert_eq!(ModuleList::Spectrum.to_string(), "Spectrum");
    assert_eq!(ModuleList::Peak.to_string(), "Peak");
}

#[test]
fn default_meter_layout() {
    let m = default_meters();
    assert_eq!(m.len(), 2);
    assert_eq!(
        m[0],
        vec![
            MeterList::Waveform,
            MeterList::Spectrogram,
            MeterList::Vectorscope,
            MeterList::Oscilloscope,
            MeterList::Spectrum,
            MeterList::Peak
        ]
    );
    assert!(m[1].is_empty());
    assert!(!meter_enabled(&m, MeterList::Waveform));
}

#[test]
fn enabled_meters_are_the_second_list() {
    let m = vec![vec![MeterList::Waveform], vec![MeterList::Peak, MeterList::Spectrum]];
    assert!(meter_enabled(&m, MeterList::Peak));
    assert!(meter_enabled(&m, MeterList::Spectrum));
    assert!(!meter_enabled(&m, MeterList::Waveform));
    assert!(!meter_enabled(&m, MeterList::GPUTest));
}
