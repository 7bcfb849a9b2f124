//! Audio playback and capture.
pub mod error;
pub mod laws;
pub mod messages;
pub mod ring_buffer;
pub mod thread;
