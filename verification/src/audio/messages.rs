//! Messages to and from the audio thread.
use vstd::prelude::*;

use crate::audio::ring_buffer::RingBufferStats;

verus! {

/// A format of audio samples.
#[derive(Debug, Clone, Copy, PartialEq, Eq, Structural)]
pub struct AudioFormat {
    /// Samples per second.
    pub sample_rate: u32,
    /// Number of channels.
    pub channels: u8,
    /// Bits per sample.
    pub bits_per_sample: u8,
}

impl AudioFormat {
    /// A format with the given values.
    pub fn new(sample_rate: u32, channels: u8, bits_per_sample: u8) -> (f: AudioFormat)
        ensures
            f == (AudioFormat { sample_rate, channels, bits_per_sample }),
    {
        AudioFormat { sample_rate, channels, bits_per_sample }
    }

    /// 44.1 kHz stereo with 16 bits.
    pub fn cd_quality() -> (f: AudioFormat)
        ensures
            f == (AudioFormat { sample_rate: 44100, channels: 2, bits_per_sample: 16 }),
    {
        AudioFormat::new(44100, 2, 16)
    }

    /// 48 kHz stereo with 16 bits.
    pub fn dvd_quality() -> (f: AudioFormat)
        ensures
            f == (AudioFormat { sample_rate: 48000, channels: 2, bits_per_sample: 16 }),
    {
        AudioFormat::new(48000, 2, 16)
    }

    /// Bytes in one frame: one sample of each channel.
    pub open spec fn frame_len(self) -> int {
        self.channels * (self.bits_per_sample as int / 8)
    }

    /// Bytes in one frame.
    pub fn bytes_per_frame(&self) -> (n: u32)
        ensures
            n == self.frame_len(),
            n <= 7905,
    {
        proof {
            let c = self.channels as int;
            let b = self.bits_per_sample as int / 8;
            assert(0 <= c * b <= 255 * 31) by (nonlinear_arith)
                requires
                    0 <= c <= 255,
                    0 <= b <= 31,
            ;
        }
        (self.channels as u32) * (self.bits_per_sample as u32 / 8)
    }
}

impl Default for AudioFormat {
    fn default() -> (f: AudioFormat)
        ensures
            f == (AudioFormat { sample_rate: 48000, channels: 2, bits_per_sample: 16 }),
    {
        AudioFormat::dvd_quality()
    }
}

/// The level of `ToAudio::SetVolume` that stands for full volume.
pub const FULL_VOLUME: u32 = 131070;

/// Commands to the audio thread.
#[derive(Debug, Clone)]
pub enum ToAudio {
    /// End.
    Shutdown,
    /// Play samples.
    PlayAudio {
        /// The samples.
        data: Vec<u8>,
        /// Their format.
        format: AudioFormat,
    },
    /// Set the volume, from 0 (muted) to `FULL_VOLUME`.
    SetVolume(u32),
    /// Begin to capture.
    StartCapture {
        /// The format to capture in.
        format: AudioFormat,
        /// How many frames a packet has.
        frames_per_packet: u32,
    },
    /// Stop capturing.
    StopCapture,
    /// Ask for the statistics of the playback buffer.
    GetBufferStats,
    /// Empty the playback buffer.
    ClearBuffer,
}

/// The view of `ToAudio`.
pub enum CommandView {
    /// End.
    Shutdown,
    /// Play samples.
    PlayAudio {
        /// The samples.
        data: Seq<u8>,
        /// Their format.
        format: AudioFormat,
    },
    /// Set the volume.
    SetVolume(u32),
    /// Begin to capture.
    StartCapture {
        /// The format to capture in.
        format: AudioFormat,
        /// How many frames a packet has.
        frames_per_packet: u32,
    },
    /// Stop capturing.
    StopCapture,
    /// Ask for the statistics of the playback buffer.
    GetBufferStats,
    /// Empty the playback buffer.
    ClearBuffer,
}

impl View for ToAudio {
    type V = CommandView;

    open spec fn view(&self) -> CommandView {
        match *self {
            ToAudio::Shutdown => CommandView::Shutdown,
            ToAudio::PlayAudio { data, format } => CommandView::PlayAudio { data: data@, format },
            ToAudio::SetVolume(level) => CommandView::SetVolume(level),
            ToAudio::StartCapture { format, frames_per_packet } => {
                CommandView::StartCapture { format, frames_per_packet }
            },
            ToAudio::StopCapture => CommandView::StopCapture,
            ToAudio::GetBufferStats => CommandView::GetBufferStats,
            ToAudio::ClearBuffer => CommandView::ClearBuffer,
        }
    }
}

/// Reports of the audio thread.
#[derive(Debug, Clone)]
pub enum FromAudio {
    /// Samples were captured.
    CapturedData {
        /// The samples.
        data: Vec<u8>,
        /// Their format.
        format: AudioFormat,
    },
    /// Capturing failed.
    CaptureError(String),
    /// Capturing ended.
    CaptureStopped,
    /// The statistics of the playback buffer.
    BufferStats(RingBufferStats),
}

/// The view of `FromAudio`.
pub enum ReportView {
    /// Samples were captured.
    CapturedData {
        /// The samples.
        data: Seq<u8>,
        /// Their format.
        format: AudioFormat,
    },
    /// Capturing failed.
    CaptureError(Seq<char>),
    /// Capturing ended.
    CaptureStopped,
    /// The statistics of the playback buffer.
    BufferStats(RingBufferStats),
}

impl View for FromAudio {
    type V = ReportView;

    open spec fn view(&self) -> ReportView {
        match *self {
            FromAudio::CapturedData { data, format } => {
                ReportView::CapturedData { data: data@, format }
            },
            FromAudio::CaptureError(s) => ReportView::CaptureError(s@),
            FromAudio::CaptureStopped => ReportView::CaptureStopped,
            FromAudio::BufferStats(s) => ReportView::BufferStats(s),
        }
    }
}

} // verus!
