//! Configuration values the core starts from.

use vstd::prelude::*;

verus! {

/// Frames per second; zero stands for an unbounded rate.
pub type FrameRate = u32;

/// The frame rate used where none is configured.
pub const DEFAULT_FRAME_RATE: FrameRate = 60;

/// The directory under which presets and textures are looked for where no
/// path is configured.
pub fn default_resource_dir() -> (dir: String)
    ensures
        dir@ == "/usr/local/share/projectM"@,
{
    "/usr/local/share/projectM".to_owned()
}

} // verus!
