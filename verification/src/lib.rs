//! Core of an audio-reactive visualizer: the capture-session state machine,
//! the device-switch rule, the bounded relay of captured samples and the
//! frame-paced loop. The platform and the rendering engine stay outside; this
//! crate decides, and its callers perform.

pub mod audio;
pub mod config;
pub mod device;
pub mod dummy_audio;
pub mod error;
pub mod main_loop;
pub mod relay;
pub mod settings;
pub mod video;
