use vstd::prelude::*;

verus! {

/// The colour theme in use.
#[derive(Clone, Copy, Debug, PartialEq, Eq, Structural)]
pub enum ThemeType {
    Light,
    Dark,
    Custom,
}

} // verus!
