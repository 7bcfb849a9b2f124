//! What can go wrong with audio.
use vstd::prelude::*;

use crate::text;

verus! {

/// What can go wrong with audio.
#[derive(Debug)]
pub enum AudioError {
    /// There is no PipeWire.
    PipeWireUnavailable(String),
    /// The PipeWire main loop could not be made.
    MainLoopCreation(String),
    /// The audio thread could not be started.
    ThreadSpawn(String),
    /// The audio thread panicked.
    ThreadPanic,
    /// The audio thread did not end in time, in seconds.
    ShutdownTimeout(u64),
    /// The capture stream could not be made.
    CaptureStreamCreation(String),
    /// The microphone may not be used.
    CapturePermissionDenied(String),
    /// There is no microphone.
    NoMicrophoneDevice,
}

impl AudioError {
    /// The text of the error.
    pub open spec fn text(self) -> Seq<char> {
        match self {
            AudioError::PipeWireUnavailable(s) => "PipeWire is not available: "@ + s@,
            AudioError::MainLoopCreation(s) => "Failed to create PipeWire main loop: "@ + s@,
            AudioError::ThreadSpawn(s) => "Failed to spawn audio thread: "@ + s@,
            AudioError::ThreadPanic => "Audio thread panicked"@,
            AudioError::ShutdownTimeout(n) => "Shutdown timeout after "@ + text::decimal(n as nat)
                + " seconds"@,
            AudioError::CaptureStreamCreation(s) => "Microphone capture failed: "@ + s@,
            AudioError::CapturePermissionDenied(s) => "Microphone access denied: "@ + s@,
            AudioError::NoMicrophoneDevice => "No microphone device available"@,
        }
    }

    /// The text of the error.
    pub fn message(&self) -> (s: String)
        ensures
            s@ == self.text(),
    {
        let mut out = String::new();
        match self {
            AudioError::PipeWireUnavailable(s) => {
                out.push_str("PipeWire is not available: ");
                out.push_str(s.as_str());
            },
            AudioError::MainLoopCreation(s) => {
                out.push_str("Failed to create PipeWire main loop: ");
                out.push_str(s.as_str());
            },
            AudioError::ThreadSpawn(s) => {
                out.push_str("Failed to spawn audio thread: ");
                out.push_str(s.as_str());
            },
            AudioError::ThreadPanic => {
                out.push_str("Audio thread panicked");
            },
            AudioError::ShutdownTimeout(n) => {
                out.push_str("Shutdown timeout after ");
                text::push_decimal(&mut out, *n);
                out.push_str(" seconds");
            },
            AudioError::CaptureStreamCreation(s) => {
                out.push_str("Microphone capture failed: ");
                out.push_str(s.as_str());
            },
            AudioError::CapturePermissionDenied(s) => {
                out.push_str("Microphone access denied: ");
                out.push_str(s.as_str());
            },
            AudioError::NoMicrophoneDevice => {
                out.push_str("No microphone device available");
            },
        }
        assert(out@ == self.text());
        out
    }
}

/// The text of an error ends with its details, where it has any, and names the number
/// of seconds that was waited for.
pub proof fn law_error_has_details(e: AudioError)
    ensures
        match e {
            AudioError::PipeWireUnavailable(s) => s@.is_suffix_of(e.text()),
            AudioError::MainLoopCreation(s) => s@.is_suffix_of(e.text()),
            AudioError::ThreadSpawn(s) => s@.is_suffix_of(e.text()),
            AudioError::CaptureStreamCreation(s) => s@.is_suffix_of(e.text()),
            AudioError::CapturePermissionDenied(s) => s@.is_suffix_of(e.text()),
            AudioError::ShutdownTimeout(n) => text::occurs(e.text(), text::decimal(n as nat)),
            AudioError::ThreadPanic => true,
            AudioError::NoMicrophoneDevice => true,
        },
{
    let t = e.text();
    match e {
        AudioError::PipeWireUnavailable(s) => {
            assert(t.subrange(t.len() - s@.len(), t.len() as int) =~= s@);
        },
        AudioError::MainLoopCreation(s) => {
            assert(t.subrange(t.len() - s@.len(), t.len() as int) =~= s@);
        },
        AudioError::ThreadSpawn(s) => {
            assert(t.subrange(t.len() - s@.len(), t.len() as int) =~= s@);
        },
        AudioError::CaptureStreamCreation(s) => {
            assert(t.subrange(t.len() - s@.len(), t.len() as int) =~= s@);
        },
        AudioError::CapturePermissionDenied(s) => {
            assert(t.subrange(t.len() - s@.len(), t.len() as int) =~= s@);
        },
        AudioError::ShutdownTimeout(n) => {
            text::law_part_occurs(
                "Shutdown timeout after "@,
                text::decimal(n as nat),
                " seconds"@,
            );
        },
        _ => {},
    }
}

} // verus!
