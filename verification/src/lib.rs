//! YARD: the decision logic of a remote desktop client.
//!
//! The library holds the wire formats, the channel state machines, the audio
//! buffering, the configuration rules and the session decisions. It does no
//! input or output of its own: a program around it performs the actions that
//! the library asks for and hands the outcomes back.
pub mod audin;
pub mod audio;
pub mod bytes;
pub mod client;
pub mod cliprdr;
pub mod config;
pub mod connection;
pub mod error;
pub mod messages;
pub mod monitors;
pub mod paths;
pub mod rdpsnd;
pub mod text;
pub mod utf16;
pub mod video;
pub mod views;
