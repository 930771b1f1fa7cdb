use vstd::prelude::*;

verus! {

/// Window geometry kept between runs.
#[derive(Debug, Clone, Copy, PartialEq, Eq, Structural)]
pub struct Settings {
    pub window_width: u32,
    pub window_height: u32,
    pub window_x: u32,
    pub window_y: u32,
}

impl Settings {
    /// The geometry of a first start: an 800 by 600 window at (100, 100).
    pub fn new() -> (res: Self)
        ensures
            res.window_width == 800,
            res.window_height == 600,
            res.window_x == 100,
            res.window_y == 100,
    {
        let settings = Settings { window_width: 800, window_height: 600, window_x: 100, window_y: 100 };
        settings
    }
}

} // verus!
