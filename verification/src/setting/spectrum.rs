use vstd::prelude::*;

verus! {

/// Which spectrum page is shown.
#[derive(Clone, Copy, Debug, PartialEq, Eq, Structural)]
pub enum SpectrumSwitch {
    Main,
    Audio,
    Ref,
}

impl Default for SpectrumSwitch {
    fn default() -> (res: Self)
        ensures
            res == SpectrumSwitch::Main,
    {
        SpectrumSwitch::Main
    }
}

/// How the spectrum is drawn.
#[derive(Clone, Copy, Debug, PartialEq, Eq, Structural)]
pub enum SpectrumMode {
    FFT,
    ColorBar,
    Both,
}

impl Default for SpectrumMode {
    fn default() -> (res: Self)
        ensures
            res == SpectrumMode::FFT,
    {
        SpectrumMode::FFT
    }
}

/// Which channel pair the spectrum analyses.
#[derive(Clone, Copy, Debug, PartialEq, Eq, Structural)]
pub enum SpectrumChannel {
    LR,
    MS,
}

impl Default for SpectrumChannel {
    fn default() -> (res: Self)
        ensures
            res == SpectrumChannel::LR,
    {
        SpectrumChannel::LR
    }
}

/// Whether and how the peak frequency is read out.
#[derive(Clone, Copy, Debug, PartialEq, Eq, Structural)]
pub enum SpectrumFreqReadout {
    Off,
    Dyn,
    Static,
}

impl Default for SpectrumFreqReadout {
    fn default() -> (res: Self)
        ensures
            res == SpectrumFreqReadout::Off,
    {
        SpectrumFreqReadout::Off
    }
}

/// Whether and how bright the frequency grid lines are drawn.
#[derive(Clone, Copy, Debug, PartialEq, Eq, Structural)]
pub enum SpectrumFreqLine {
    Off,
    On,
    Bright,
}

impl Default for SpectrumFreqLine {
    fn default() -> (res: Self)
        ensures
            res == SpectrumFreqLine::Off,
    {
        SpectrumFreqLine::Off
    }
}

} // verus!
