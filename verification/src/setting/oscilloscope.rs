use vstd::prelude::*;

verus! {

/// How many signal cycles the oscilloscope shows when it follows the pitch.
#[derive(Clone, Copy, Debug, PartialEq, Eq, Structural)]
pub enum OscilloscopeCycle {
    Multi,
    Single,
}

impl Default for OscilloscopeCycle {
    fn default() -> (res: Self)
        ensures
            res == OscilloscopeCycle::Multi,
    {
        OscilloscopeCycle::Multi
    }
}

/// Oscilloscope options.
#[derive(Clone, Copy, Debug, PartialEq, Eq, Structural)]
pub struct OscilloscopeSetting {
    pub follow_pitch: bool,
    pub cycle: OscilloscopeCycle,
}

impl Default for OscilloscopeSetting {
    fn default() -> (res: Self)
        ensures
            !res.follow_pitch,
            res.cycle == OscilloscopeCycle::Multi,
    {
        OscilloscopeSetting { follow_pitch: false, cycle: OscilloscopeCycle::default() }
    }
}

} // verus!
