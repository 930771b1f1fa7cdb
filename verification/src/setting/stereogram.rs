use vstd::prelude::*;

verus! {

/// How the stereogram maps the two channels to the plane.
#[derive(Clone, Copy, Debug, PartialEq, Eq, Structural)]
pub enum StereogramMode {
    Logarithmic,
    Linear,
    Lissajous,
}

impl Default for StereogramMode {
    fn default() -> (res: Self)
        ensures
            res == StereogramMode::Logarithmic,
    {
        StereogramMode::Logarithmic
    }
}

/// How the stereogram colours its points.
#[derive(Clone, Copy, Debug, PartialEq, Eq, Structural)]
pub enum StereogramColor {
    Static,
    RGB,
    MultiBand,
}

impl Default for StereogramColor {
    fn default() -> (res: Self)
        ensures
            res == StereogramColor::Static,
    {
        StereogramColor::Static
    }
}

/// Whether the stereogram shows one polarity or both.
#[derive(Clone, Copy, Debug, PartialEq, Eq, Structural)]
pub enum StereogramPolarity {
    Uni,
    Bi,
}

impl Default for StereogramPolarity {
    fn default() -> (res: Self)
        ensures
            res == StereogramPolarity::Uni,
    {
        StereogramPolarity::Uni
    }
}

} // verus!
