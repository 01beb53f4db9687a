//! The faults of audio capture. None of them ends the render loop: each is
//! reported, and the frame goes on without audio.

use vstd::prelude::*;

verus! {

/// Why a device could not be brought to capture.
#[derive(Clone, Debug, PartialEq, Eq)]
pub enum OpenFailure {
    /// The platform refused to open the device; its message.
    Platform(String),
    /// The opened stream names no device it is bound to.
    Unbound,
    /// The platform refused to start the opened stream; its message.
    Resume(String),
    /// An outcome was reported while no open was under way.
    NotOpening,
}

/// A fault of the capture side.
#[derive(Clone, Debug, PartialEq, Eq)]
pub enum CaptureError {
    /// The platform could not list its input devices; its message.
    DeviceEnumerationFailed(String),
    /// A device could not be opened for capture.
    OpenFailed(OpenFailure),
    /// Reading captured samples failed; the platform's message.
    StreamReadFailed(String),
    /// There is no device to capture from.
    NoDeviceAvailable,
}

} // verus!
