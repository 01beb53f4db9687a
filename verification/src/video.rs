//! The fullscreen toggle.

use vstd::prelude::*;

verus! {

/// How a window is shown.
#[derive(Clone, Copy, Debug, PartialEq, Eq, Structural)]
pub enum FullscreenType {
    /// Windowed.
    Off,
    /// Fullscreen with a display mode of its own.
    True,
    /// Fullscreen at the desktop's display mode.
    Desktop,
}

/// Whether the window is to be fullscreen after a toggle: only a window in
/// true fullscreen leaves it; a windowed one, and one in desktop fullscreen,
/// is set to fullscreen.
pub fn fullscreen_after_toggle(state: FullscreenType) -> (fullscreen: bool)
    ensures
        fullscreen == (state != FullscreenType::True),
{
    match state {
        FullscreenType::True => false,
        _ => true,
    }
}

} // verus!
