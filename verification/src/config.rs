//! The parameters a game is started with.

use vstd::prelude::*;

verus! {

/// Window size, title, pacing and tile size. A game keeps the configuration
/// it was made with and never changes it.
#[derive(Clone, Debug, PartialEq, Eq)]
pub struct GameConfig {
    pub title: String,
    pub window_height: u32,
    pub window_width: u32,
    pub updates_per_second: u64,
    pub max_frames_per_second: u64,
    /// Length of each side of a tile, in pixels.
    pub tile_size: u32,
}

impl GameConfig {
    /// A configuration is well formed when every number in it is positive.
    /// The tile may still be larger than the window: the grid is then empty
    /// and a pass only clears.
    pub open spec fn wf(&self) -> bool {
        &&& self.window_width > 0
        &&& self.window_height > 0
        &&& self.updates_per_second > 0
        &&& self.max_frames_per_second > 0
        &&& self.tile_size > 0
    }

    /// Tells whether the configuration is well formed.
    pub fn is_valid(&self) -> (ok: bool)
        ensures
            ok == self.wf(),
    {
        self.window_width > 0 && self.window_height > 0 && self.updates_per_second > 0
            && self.max_frames_per_second > 0 && self.tile_size > 0
    }
}

/// What the game asks of the window provider.
#[derive(Clone, Debug, PartialEq, Eq)]
pub struct WindowSettings {
    pub title: String,
    pub width: u32,
    pub height: u32,
    pub fullscreen: bool,
    pub exit_on_esc: bool,
    /// Samples per pixel for anti-aliasing; 0 switches it off.
    pub samples: u8,
}

/// The pacing the game asks of the event source.
#[derive(Clone, Copy, Debug, PartialEq, Eq, Structural)]
pub struct EventSettings {
    pub updates_per_second: u64,
    pub max_frames_per_second: u64,
}

} // verus!
