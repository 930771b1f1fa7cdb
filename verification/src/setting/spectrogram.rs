use vstd::prelude::*;

verus! {

/// Whether time runs horizontally or vertically in the spectrogram.
#[derive(Clone, Copy, Debug, PartialEq, Eq, Structural)]
pub enum SpectrogramOrientation {
    H,
    V,
}

impl Default for SpectrogramOrientation {
    fn default() -> (res: Self)
        ensures
            res == SpectrogramOrientation::H,
    {
        SpectrogramOrientation::H
    }
}

/// How the spectrogram is computed: reassigned (sharp) or plain.
#[derive(Clone, Copy, Debug, PartialEq, Eq, Structural)]
pub enum SpectrogramMode {
    Sharp,
    Classic,
}

impl Default for SpectrogramMode {
    fn default() -> (res: Self)
        ensures
            res == SpectrogramMode::Sharp,
    {
        SpectrogramMode::Sharp
    }
}

/// The frequency axis of the spectrogram.
#[derive(Clone, Copy, Debug, PartialEq, Eq, Structural)]
pub enum SpectrogramCurve {
    Linear,
    Logarithmic,
}

impl Default for SpectrogramCurve {
    fn default() -> (res: Self)
        ensures
            res == SpectrogramCurve::Linear,
    {
        SpectrogramCurve::Linear
    }
}

} // verus!
