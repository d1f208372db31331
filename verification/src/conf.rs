//! Configuration options for starting the engine.
use vstd::prelude::*;

verus! {

/// The window the engine opens.
#[derive(Debug)]
pub struct Conf {
    /// The window's title.
    pub window_title: String,
    /// The width of the window in pixels.
    pub window_width: u32,
    /// The height of the window in pixels.
    pub window_height: u32,
}

impl Default for Conf {
    /// An 800 by 680 window titled `HEAVY \m/`.
    fn default() -> (conf: Self)
        ensures
            conf.window_title@ == "HEAVY \\m/"@,
            conf.window_width == 800,
            conf.window_height == 680,
    {
        Self { window_title: "HEAVY \\m/".to_owned(), window_width: 800, window_height: 680 }
    }
}

} // verus!
