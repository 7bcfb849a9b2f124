//! The audio output channel (RDPSND): playing what the server sends.
//!
//! The handler queues commands for the audio thread.
use vstd::prelude::*;

use crate::audio::messages::{AudioFormat, CommandView, ToAudio};
use crate::views;

verus! {

/// The number of the PCM wave format.
pub const WAVE_FORMAT_PCM: u16 = 1;

/// A format as the channel describes it.
#[derive(Debug, Clone, Copy, PartialEq, Eq, Structural)]
pub struct RdpAudioFormat {
    /// The number of the wave format.
    pub format: u16,
    /// Number of channels.
    pub n_channels: u16,
    /// Samples per second.
    pub n_samples_per_sec: u32,
    /// Bytes per second.
    pub n_avg_bytes_per_sec: u32,
    /// Bytes in one frame.
    pub n_block_align: u16,
    /// Bits per sample.
    pub bits_per_sample: u16,
}

/// PCM samples with 16 bits.
pub open spec fn pcm16(rate: int, channels: int) -> RdpAudioFormat {
    RdpAudioFormat {
        format: 1,
        n_channels: channels as u16,
        n_samples_per_sec: rate as u32,
        n_avg_bytes_per_sec: (rate * channels * 2) as u32,
        n_block_align: (channels * 2) as u16,
        bits_per_sample: 16,
    }
}

/// The formats that the client plays, the preferred one first.
pub open spec fn playable() -> Seq<RdpAudioFormat> {
    seq![pcm16(48000, 2), pcm16(44100, 2), pcm16(48000, 1)]
}

/// The formats that the client plays, the preferred one first.
pub fn supported_formats() -> (formats: Vec<RdpAudioFormat>)
    ensures
        formats@ == playable(),
{
    let mut formats: Vec<RdpAudioFormat> = Vec::new();
    formats.push(
        RdpAudioFormat {
            format: WAVE_FORMAT_PCM,
            n_channels: 2,
            n_samples_per_sec: 48000,
            n_avg_bytes_per_sec: 192000,
            n_block_align: 4,
            bits_per_sample: 16,
        },
    );
    formats.push(
        RdpAudioFormat {
            format: WAVE_FORMAT_PCM,
            n_channels: 2,
            n_samples_per_sec: 44100,
            n_avg_bytes_per_sec: 176400,
            n_block_align: 4,
            bits_per_sample: 16,
        },
    );
    formats.push(
        RdpAudioFormat {
            format: WAVE_FORMAT_PCM,
            n_channels: 1,
            n_samples_per_sec: 48000,
            n_avg_bytes_per_sec: 96000,
            n_block_align: 2,
            bits_per_sample: 16,
        },
    );
    assert(formats@ == playable());
    formats
}

/// The format that the audio thread is told: of the channels and the bits, the
/// lower eight binary digits.
pub open spec fn played_as(f: RdpAudioFormat) -> AudioFormat {
    AudioFormat {
        sample_rate: f.n_samples_per_sec,
        channels: (f.n_channels % 256) as u8,
        bits_per_sample: (f.bits_per_sample % 256) as u8,
    }
}

/// The format of the samples that come with the number `format_no`: 48 kHz stereo
/// where no format has that number.
pub open spec fn numbered_format(format_no: int) -> AudioFormat {
    if 0 <= format_no < playable().len() {
        played_as(playable()[format_no])
    } else {
        AudioFormat { sample_rate: 48000, channels: 2, bits_per_sample: 16 }
    }
}

/// The handler of the audio output channel.
#[derive(Debug)]
pub struct YardRdpsndHandler {
    /// The format of the latest samples.
    pub current_format: Option<AudioFormat>,
    /// Commands that were not taken yet.
    pub commands: Vec<ToAudio>,
}

/// The view of `YardRdpsndHandler`.
pub struct RdpsndView {
    /// The format of the latest samples.
    pub current_format: Option<AudioFormat>,
    /// Commands that were not taken yet.
    pub commands: Seq<CommandView>,
}

impl View for YardRdpsndHandler {
    type V = RdpsndView;

    open spec fn view(&self) -> RdpsndView {
        RdpsndView {
            current_format: self.current_format,
            commands: views::seq_view(self.commands@),
        }
    }
}

/// A fresh handler.
pub open spec fn fresh_rdpsnd() -> RdpsndView {
    RdpsndView { current_format: None, commands: Seq::empty() }
}

/// What a change of the volume leads to.
pub open spec fn on_volume(h: RdpsndView, volume_left: u16, volume_right: u16) -> RdpsndView {
    RdpsndView {
        commands: h.commands.push(CommandView::SetVolume((volume_left + volume_right) as u32)),
        ..h
    }
}

/// What samples lead to.
pub open spec fn on_wave(h: RdpsndView, format_no: int, data: Seq<u8>) -> RdpsndView {
    let format = numbered_format(format_no);
    RdpsndView {
        current_format: Some(format),
        commands: h.commands.push(CommandView::PlayAudio { data, format }),
    }
}

impl YardRdpsndHandler {
    /// A handler.
    pub fn new() -> (h: YardRdpsndHandler)
        ensures
            h@ == fresh_rdpsnd(),
    {
        let h = YardRdpsndHandler { current_format: None, commands: Vec::new() };
        assert(views::seq_view(h.commands@) == Seq::<CommandView>::empty());
        h
    }

    /// The format that the audio thread is told.
    pub fn convert_format(rdp_format: &RdpAudioFormat) -> (f: AudioFormat)
        ensures
            f == played_as(*rdp_format),
    {
        AudioFormat::new(
            rdp_format.n_samples_per_sec,
            (rdp_format.n_channels % 256) as u8,
            (rdp_format.bits_per_sample % 256) as u8,
        )
    }

    /// The flags of the client: none.
    pub fn get_flags(&self) -> (flags: u32)
        ensures
            flags == 0,
    {
        0
    }

    /// The formats that the client plays.
    pub fn get_formats(&self) -> (formats: Vec<RdpAudioFormat>)
        ensures
            formats@ == playable(),
    {
        supported_formats()
    }

    /// Samples to play, in the format with the number `format_no` of those that
    /// `get_formats` gives.
    pub fn wave(&mut self, format_no: usize, _ts: u32, data: Vec<u8>)
        ensures
            final(self)@ == on_wave(old(self)@, format_no as int, data@),
    {
        let formats = supported_formats();
        let format = if format_no < formats.len() {
            YardRdpsndHandler::convert_format(&formats[format_no])
        } else {
            AudioFormat::default()
        };
        self.current_format = Some(format);
        let command = ToAudio::PlayAudio { data, format };
        proof {
            views::lemma_seq_view_push(self.commands@, command);
        }
        self.commands.push(command);
    }

    /// The server sets the volume of the left and the right channel: the audio
    /// thread is told their mean, in units of half a step.
    pub fn set_volume(&mut self, volume_left: u16, volume_right: u16)
        ensures
            final(self)@ == (RdpsndView {
                commands: old(self)@.commands.push(
                    CommandView::SetVolume((volume_left + volume_right) as u32),
                ),
                ..old(self)@
            }),
            final(self)@ == on_volume(old(self)@, volume_left, volume_right),
    {
        let command = ToAudio::SetVolume(volume_left as u32 + volume_right as u32);
        proof {
            views::lemma_seq_view_push(self.commands@, command);
        }
        self.commands.push(command);
    }

    /// The server sets the pitch: it is left as it is.
    pub fn set_pitch(&mut self, _pitch: u32)
        ensures
            final(self)@ == old(self)@,
    {
    }

    /// The channel is closed: the audio thread goes on.
    pub fn close(&mut self)
        ensures
            final(self)@ == old(self)@,
    {
    }

    /// Takes the queued commands.
    pub fn take_commands(&mut self) -> (commands: Vec<ToAudio>)
        ensures
            views::seq_view(commands@) == old(self)@.commands,
            final(self)@ == (RdpsndView { commands: Seq::empty(), ..old(self)@ }),
    {
        let mut commands: Vec<ToAudio> = Vec::new();
        commands.append(&mut self.commands);
        assert(commands@ == old(self).commands@);
        assert(views::seq_view(self.commands@) == Seq::<CommandView>::empty());
        commands
    }
}

/// The handler of a connection: none where there is no audio thread, and then the
/// samples are discarded.
pub fn create_rdpsnd_client(has_audio: bool) -> (h: Option<YardRdpsndHandler>)
    ensures
        h is Some <==> has_audio,
        h is Some ==> h->0@ == fresh_rdpsnd(),
{
    if has_audio {
        Some(YardRdpsndHandler::new())
    } else {
        None
    }
}

/// Every format that is offered is PCM, its bytes per second and its frame agree
/// with its rate, channels and bits, and nothing of it is lost on the way to the
/// audio thread.
pub proof fn law_playable_formats_agree(i: int)
    requires
        0 <= i < playable().len(),
    ensures
        playable()[i].format == WAVE_FORMAT_PCM,
        playable()[i].n_block_align == played_as(playable()[i]).frame_len(),
        playable()[i].n_avg_bytes_per_sec == playable()[i].n_samples_per_sec
            * playable()[i].n_block_align,
        played_as(playable()[i]).channels == playable()[i].n_channels,
        played_as(playable()[i]).bits_per_sample == playable()[i].bits_per_sample,
{
    assert(i == 0 || i == 1 || i == 2);
}

/// No level exceeds full volume, and full volume on both sides is full volume.
pub proof fn law_volume_in_range(volume_left: u16, volume_right: u16)
    ensures
        volume_left + volume_right <= crate::audio::messages::FULL_VOLUME,
        volume_left + volume_right == crate::audio::messages::FULL_VOLUME <==> volume_left
            == u16::MAX && volume_right == u16::MAX,
{
}

} // verus!
