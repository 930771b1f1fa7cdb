use vstd::prelude::*;

verus! {

/// How the vectorscope maps the two channels to the plane.
#[derive(Clone, Copy, Debug, PartialEq, Eq, Structural)]
pub enum VectorscopeMode {
    Logarithmic,
    Linear,
    Lissajous,
}

impl Default for VectorscopeMode {
    fn default() -> (res: Self)
        ensures
            res == VectorscopeMode::Logarithmic,
    {
        VectorscopeMode::Logarithmic
    }
}

/// How the vectorscope colours its points.
#[derive(Clone, Copy, Debug, PartialEq, Eq, Structural)]
pub enum VectorscopeColor {
    Static,
    RGB,
    MultiBand,
}

impl Default for VectorscopeColor {
    fn default() -> (res: Self)
        ensures
            res == VectorscopeColor::Static,
    {
        VectorscopeColor::Static
    }
}

/// Whether the vectorscope shows one polarity or both.
#[derive(Clone, Copy, Debug, PartialEq, Eq, Structural)]
pub enum VectorscopePolarity {
    Uni,
    Bi,
}

impl Default for VectorscopePolarity {
    fn default() -> (res: Self)
        ensures
            res == VectorscopePolarity::Uni,
    {
        VectorscopePolarity::Uni
    }
}

} // verus!
