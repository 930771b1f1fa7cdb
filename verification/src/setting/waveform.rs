use vstd::prelude::*;

verus! {

/// How the waveform is coloured.
#[derive(Clone, Copy, Debug, PartialEq, Eq, Structural)]
pub enum WaveformMode {
    Static,
    MultiBand,
}

impl Default for WaveformMode {
    fn default() -> (res: Self)
        ensures
            res == WaveformMode::Static,
    {
        WaveformMode::Static
    }
}

/// Which signal a half of the waveform meter shows.
#[derive(Clone, Copy, Debug, PartialEq, Eq, Structural)]
pub enum WaveformChannel {
    Off,
    Left,
    Right,
    Mid,
    Side,
}

impl Default for WaveformChannel {
    fn default() -> (res: Self)
        ensures
            res == WaveformChannel::Off,
    {
        WaveformChannel::Off
    }
}

/// How fast the peak history of the waveform fades.
#[derive(Clone, Copy, Debug, PartialEq, Eq, Structural)]
pub enum WaveformHistory {
    Off,
    Fast,
    Slow,
}

impl Default for WaveformHistory {
    fn default() -> (res: Self)
        ensures
            res == WaveformHistory::Off,
    {
        WaveformHistory::Off
    }
}

/// Waveform options.
#[derive(Clone, Copy, Debug, PartialEq, Eq, Structural)]
pub struct WaveformSetting {
    pub channel_1: WaveformChannel,
    pub channel_2: WaveformChannel,
    pub mode: WaveformMode,
    pub peak_history: WaveformHistory,
    pub speed: usize,
}

impl Default for WaveformSetting {
    fn default() -> (res: Self)
        ensures
            res.channel_1 == WaveformChannel::Off,
            res.channel_2 == WaveformChannel::Off,
            res.mode == WaveformMode::Static,
            res.peak_history == WaveformHistory::Off,
            res.speed == 0,
    {
        WaveformSetting {
            channel_1: WaveformChannel::default(),
            channel_2: WaveformChannel::default(),
            mode: WaveformMode::default(),
            peak_history: WaveformHistory::default(),
            speed: 0,
        }
    }
}

} // verus!
