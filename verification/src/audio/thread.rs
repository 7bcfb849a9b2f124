//! The decisions of the audio thread.
//!
//! The engine takes commands and says what is to be done with the streams of the
//! audio server; it fills playback buffers and cuts captured samples into
//! packets.
use vstd::prelude::*;

use crate::audio::messages::{AudioFormat, CommandView, FromAudio, ReportView, ToAudio};
use crate::audio::ring_buffer;
use crate::audio::ring_buffer::{AudioRingBuffer, RingView};
use crate::bytes;
use crate::views;

verus! {

/// How long the end of the thread is waited for, in seconds.
pub const SHUTDOWN_TIMEOUT_SECS: u64 = 2;

/// The same in nanoseconds.
const SHUTDOWN_TIMEOUT_NANOS: u128 = 2_000_000_000;

/// What is captured from the microphone.
#[derive(Debug)]
pub struct CaptureState {
    /// Whether samples are captured.
    pub active: bool,
    /// The format that was asked for.
    pub format: Option<AudioFormat>,
    /// How many frames a packet has.
    pub frames_per_packet: u32,
    /// Samples that do not fill a packet yet.
    pub frame_accumulator: Vec<u8>,
}

/// The view of `CaptureState`.
pub struct CaptureView {
    /// Whether samples are captured.
    pub active: bool,
    /// The format that was asked for.
    pub format: Option<AudioFormat>,
    /// How many frames a packet has.
    pub frames_per_packet: u32,
    /// Samples that do not fill a packet yet.
    pub accumulated: Seq<u8>,
}

impl View for CaptureState {
    type V = CaptureView;

    open spec fn view(&self) -> CaptureView {
        CaptureView {
            active: self.active,
            format: self.format,
            frames_per_packet: self.frames_per_packet,
            accumulated: self.frame_accumulator@,
        }
    }
}

impl Default for CaptureState {
    fn default() -> (s: CaptureState)
        ensures
            s@ == idle_capture(),
    {
        CaptureState {
            active: false,
            format: None,
            frames_per_packet: 480,
            frame_accumulator: Vec::new(),
        }
    }
}

/// Nothing is captured.
pub open spec fn idle_capture() -> CaptureView {
    CaptureView {
        active: false,
        format: None,
        frames_per_packet: 480,
        accumulated: Seq::empty(),
    }
}

/// What is played.
#[derive(Debug)]
pub struct PlaybackState {
    /// The samples that are to be played.
    pub buffer: AudioRingBuffer,
    /// Their format.
    pub format: Option<AudioFormat>,
}

/// The view of `PlaybackState`.
pub struct PlaybackView {
    /// The samples that are to be played.
    pub ring: RingView,
    /// Their format.
    pub format: Option<AudioFormat>,
}

impl View for PlaybackState {
    type V = PlaybackView;

    open spec fn view(&self) -> PlaybackView {
        PlaybackView { ring: self.buffer@, format: self.format }
    }
}

impl Default for PlaybackState {
    fn default() -> (s: PlaybackState)
        ensures
            s.buffer.wf(),
            s@ == (PlaybackView { ring: ring_buffer::fresh_ring(65536), format: None }),
    {
        PlaybackState { buffer: AudioRingBuffer::with_default_capacity(), format: None }
    }
}

/// What the program has to do.
#[derive(Debug)]
pub enum AudioAction {
    /// Replace the playback stream by one of the given format.
    CreatePlayback(AudioFormat),
    /// Replace the capture stream by one of the given format.
    CreateCapture {
        /// The format to capture in.
        format: AudioFormat,
        /// How many frames a packet has.
        frames_per_packet: u32,
    },
    /// Disconnect the playback stream.
    DisconnectPlayback,
    /// Disconnect the capture stream.
    DisconnectCapture,
    /// Send a report.
    Send(FromAudio),
    /// End the main loop.
    Quit,
}

/// The view of `AudioAction`.
pub enum ActionView {
    /// Replace the playback stream by one of the given format.
    CreatePlayback(AudioFormat),
    /// Replace the capture stream by one of the given format.
    CreateCapture {
        /// The format to capture in.
        format: AudioFormat,
        /// How many frames a packet has.
        frames_per_packet: u32,
    },
    /// Disconnect the playback stream.
    DisconnectPlayback,
    /// Disconnect the capture stream.
    DisconnectCapture,
    /// Send a report.
    Send(ReportView),
    /// End the main loop.
    Quit,
}

impl View for AudioAction {
    type V = ActionView;

    open spec fn view(&self) -> ActionView {
        match *self {
            AudioAction::CreatePlayback(f) => ActionView::CreatePlayback(f),
            AudioAction::CreateCapture { format, frames_per_packet } => {
                ActionView::CreateCapture { format, frames_per_packet }
            },
            AudioAction::DisconnectPlayback => ActionView::DisconnectPlayback,
            AudioAction::DisconnectCapture => ActionView::DisconnectCapture,
            AudioAction::Send(r) => ActionView::Send(r@),
            AudioAction::Quit => ActionView::Quit,
        }
    }
}

/// The state of the audio thread.
#[derive(Debug)]
pub struct AudioEngine {
    /// What is captured.
    pub capture: CaptureState,
    /// What is played.
    pub playback: PlaybackState,
    /// Whether the thread runs.
    pub running: bool,
}

/// The view of `AudioEngine`.
pub struct EngineView {
    /// What is captured.
    pub capture: CaptureView,
    /// What is played.
    pub playback: PlaybackView,
    /// Whether the thread runs.
    pub running: bool,
}

impl View for AudioEngine {
    type V = EngineView;

    open spec fn view(&self) -> EngineView {
        EngineView { capture: self.capture@, playback: self.playback@, running: self.running }
    }
}

/// What a command leads to.
pub open spec fn on_command(e: EngineView, c: CommandView) -> (EngineView, Seq<ActionView>) {
    match c {
        CommandView::Shutdown => (
            EngineView {
                capture: CaptureView { active: false, ..e.capture },
                running: false,
                ..e
            },
            (if e.capture.active {
                seq![ActionView::Send(ReportView::CaptureStopped)]
            } else {
                Seq::empty()
            }) + seq![
                ActionView::DisconnectPlayback,
                ActionView::DisconnectCapture,
                ActionView::Quit,
            ],
        ),
        CommandView::PlayAudio { data, format } => {
            let changed = e.playback.format != Some(format);
            let ring = if changed {
                RingView { contents: Seq::empty(), ..e.playback.ring }
            } else {
                e.playback.ring
            };
            (
                EngineView {
                    playback: PlaybackView { ring: ring.pushed(data), format: Some(format) },
                    ..e
                },
                if changed {
                    seq![ActionView::CreatePlayback(format)]
                } else {
                    Seq::empty()
                },
            )
        },
        CommandView::SetVolume(_) => (e, Seq::empty()),
        CommandView::StartCapture { format, frames_per_packet } => (
            EngineView {
                capture: CaptureView {
                    active: true,
                    format: Some(format),
                    frames_per_packet,
                    accumulated: Seq::empty(),
                },
                ..e
            },
            seq![ActionView::CreateCapture { format, frames_per_packet }],
        ),
        CommandView::StopCapture => if e.capture.active {
            (
                EngineView {
                    capture: CaptureView { active: false, format: None, ..e.capture },
                    ..e
                },
                seq![
                    ActionView::DisconnectCapture,
                    ActionView::Send(ReportView::CaptureStopped),
                ],
            )
        } else {
            (e, Seq::empty())
        },
        CommandView::GetBufferStats => (
            e,
            seq![
                ActionView::Send(
                    ReportView::BufferStats(ring_buffer::stats_of(e.playback.ring)),
                ),
            ],
        ),
        CommandView::ClearBuffer => (
            EngineView {
                playback: PlaybackView {
                    ring: ring_buffer::fresh_ring(e.playback.ring.capacity),
                    ..e.playback
                },
                ..e
            },
            Seq::empty(),
        ),
    }
}

/// What the loss of the command channel leads to.
pub open spec fn on_disconnected(e: EngineView) -> (EngineView, Seq<ActionView>) {
    (
        EngineView { running: false, ..e },
        if e.capture.active {
            seq![ActionView::Send(ReportView::CaptureStopped), ActionView::Quit]
        } else {
            seq![ActionView::Quit]
        },
    )
}

/// Bytes in a packet.
pub open spec fn packet_len(c: CaptureView) -> int {
    match c.format {
        Some(f) => c.frames_per_packet * f.frame_len(),
        None => 0,
    }
}

/// The whole packets at the start of the samples.
pub open spec fn packets(samples: Seq<u8>, len: int) -> Seq<Seq<u8>>
    decreases samples.len(),
{
    if len <= 0 || samples.len() < len {
        Seq::empty()
    } else {
        seq![samples.take(len)] + packets(samples.skip(len), len)
    }
}

/// The samples after the whole packets.
pub open spec fn leftover(samples: Seq<u8>, len: int) -> Seq<u8>
    decreases samples.len(),
{
    if len <= 0 || samples.len() < len {
        samples
    } else {
        leftover(samples.skip(len), len)
    }
}

/// The samples of packets one after the other.
pub open spec fn joined(p: Seq<Seq<u8>>) -> Seq<u8>
    decreases p.len(),
{
    if p.len() == 0 {
        Seq::empty()
    } else {
        p[0] + joined(p.drop_first())
    }
}

/// The samples that the audio server hands over: the given number at most.
pub open spec fn captured_part(samples: Seq<u8>, size: u32) -> Seq<u8> {
    if size < samples.len() {
        samples.take(size as int)
    } else {
        samples
    }
}

/// The part of a playback buffer that holds samples.
#[derive(Debug, Clone, Copy, PartialEq, Eq, Structural)]
pub struct PlaybackChunk {
    /// How many bytes were read from the ring.
    pub size: u32,
    /// Bytes in a frame.
    pub stride: i32,
}

/// How the samples of a stream are stored.
#[derive(Debug, Clone, Copy, PartialEq, Eq, Structural)]
pub enum SampleFormat {
    /// 16 bits, little-endian.
    S16LE,
    /// 24 bits, little-endian.
    S24LE,
    /// 32 bits, little-endian.
    S32LE,
}

/// The sample format for a number of bits: 16 bits where it is unknown.
pub open spec fn sample_format_of(bits_per_sample: u8) -> SampleFormat {
    match bits_per_sample {
        24 => SampleFormat::S24LE,
        32 => SampleFormat::S32LE,
        _ => SampleFormat::S16LE,
    }
}

/// The sample format for a number of bits: 16 bits where it is unknown.
pub fn sample_format(bits_per_sample: u8) -> (f: SampleFormat)
    ensures
        f == sample_format_of(bits_per_sample),
        f == (match bits_per_sample {
            24 => SampleFormat::S24LE,
            32 => SampleFormat::S32LE,
            _ => SampleFormat::S16LE,
        }),
{
    match bits_per_sample {
        16 => SampleFormat::S16LE,
        24 => SampleFormat::S24LE,
        32 => SampleFormat::S32LE,
        _ => SampleFormat::S16LE,
    }
}

/// Appends an action.
fn push_action(out: &mut Vec<AudioAction>, a: AudioAction)
    ensures
        views::seq_view(final(out)@) == views::seq_view(old(out)@).push(a@),
{
    proof {
        views::lemma_seq_view_push(out@, a);
    }
    out.push(a);
}

/// What filling a playback buffer of `n` bytes leads to, and what it then holds.
pub open spec fn filled(e: EngineView, n: nat) -> (EngineView, Seq<u8>) {
    (
        EngineView {
            playback: PlaybackView { ring: e.playback.ring.popped(n), ..e.playback },
            ..e
        },
        e.playback.ring.output(n),
    )
}

/// How many bytes of a playback buffer of `n` bytes are samples.
pub open spec fn chunk_size(e: EngineView, n: nat) -> int {
    ring_buffer::least(n, e.playback.ring.contents.len()) as int % 0x1_0000_0000
}

/// How many bytes a frame of a playback buffer has.
pub open spec fn chunk_stride(e: EngineView) -> int {
    match e.playback.format {
        Some(f) => f.frame_len(),
        None => 4,
    }
}

/// What captured samples lead to, and the reports of whole packets.
pub open spec fn captured(e: EngineView, samples: Seq<u8>, size: u32) -> (
    EngineView,
    Seq<ReportView>,
) {
    if e.capture.active {
        let all = e.capture.accumulated + captured_part(samples, size);
        let len = packet_len(e.capture);
        (
            EngineView {
                capture: CaptureView { accumulated: leftover(all, len), ..e.capture },
                ..e
            },
            Seq::new(
                packets(all, len).len(),
                |i: int|
                    ReportView::CapturedData {
                        data: packets(all, len)[i],
                        format: e.capture.format->0,
                    },
            ),
        )
    } else {
        (e, Seq::empty())
    }
}

impl AudioEngine {
    /// The engine when the thread starts.
    pub fn new() -> (e: AudioEngine)
        ensures
            e.wf(),
            e@ == (EngineView {
                capture: idle_capture(),
                playback: PlaybackView { ring: ring_buffer::fresh_ring(65536), format: None },
                running: true,
            }),
    {
        AudioEngine {
            capture: CaptureState::default(),
            playback: PlaybackState::default(),
            running: true,
        }
    }

    /// The ring of the playback is in order.
    pub open spec fn wf(&self) -> bool {
        self.playback.buffer.wf()
    }

    /// Handles a command.
    pub fn handle(&mut self, command: ToAudio) -> (actions: Vec<AudioAction>)
        requires
            old(self).wf(),
        ensures
            final(self).wf(),
            (final(self)@, views::seq_view(actions@)) == on_command(old(self)@, command@),
    {
        let ghost expected = on_command(self@, command@);
        let mut actions: Vec<AudioAction> = Vec::new();
        assert(views::seq_view(actions@) == Seq::<ActionView>::empty());
        match command {
            ToAudio::Shutdown => {
                if self.capture.active {
                    self.capture.active = false;
                    push_action(&mut actions, AudioAction::Send(FromAudio::CaptureStopped));
                }
                push_action(&mut actions, AudioAction::DisconnectPlayback);
                push_action(&mut actions, AudioAction::DisconnectCapture);
                push_action(&mut actions, AudioAction::Quit);
                self.running = false;
                assert(views::seq_view(actions@) == expected.1);
            },
            ToAudio::PlayAudio { data, format } => {
                let changed = match self.playback.format {
                    Some(f) => f != format,
                    None => true,
                };
                if changed {
                    self.playback.buffer.clear();
                    self.playback.format = Some(format);
                    push_action(&mut actions, AudioAction::CreatePlayback(format));
                }
                self.playback.buffer.push(data.as_slice());
                assert(views::seq_view(actions@) == expected.1);
            },
            ToAudio::SetVolume(_) => {},
            ToAudio::StartCapture { format, frames_per_packet } => {
                self.capture.format = Some(format);
                self.capture.frames_per_packet = frames_per_packet;
                self.capture.active = true;
                self.capture.frame_accumulator.clear();
                push_action(&mut actions, AudioAction::CreateCapture { format, frames_per_packet });
                assert(views::seq_view(actions@) == expected.1);
            },
            ToAudio::StopCapture => {
                if self.capture.active {
                    self.capture.active = false;
                    self.capture.format = None;
                    push_action(&mut actions, AudioAction::DisconnectCapture);
                    push_action(&mut actions, AudioAction::Send(FromAudio::CaptureStopped));
                    assert(views::seq_view(actions@) == expected.1);
                }
            },
            ToAudio::GetBufferStats => {
                let stats = self.playback.buffer.stats();
                push_action(&mut actions, AudioAction::Send(FromAudio::BufferStats(stats)));
                assert(views::seq_view(actions@) == expected.1);
            },
            ToAudio::ClearBuffer => {
                self.playback.buffer.clear();
                self.playback.buffer.reset_stats();
            },
        }
        actions
    }

    /// Handles the loss of the command channel.
    pub fn handle_disconnected(&mut self) -> (actions: Vec<AudioAction>)
        requires
            old(self).wf(),
        ensures
            final(self).wf(),
            (final(self)@, views::seq_view(actions@)) == on_disconnected(old(self)@),
    {
        let mut actions: Vec<AudioAction> = Vec::new();
        assert(views::seq_view(actions@) == Seq::<ActionView>::empty());
        if self.capture.active {
            push_action(&mut actions, AudioAction::Send(FromAudio::CaptureStopped));
        }
        push_action(&mut actions, AudioAction::Quit);
        self.running = false;
        assert(views::seq_view(actions@) == on_disconnected(old(self)@).1);
        actions
    }

    /// Fills a playback buffer. The size of the chunk holds the lower 32 bits of
    /// the number of bytes that were read.
    pub fn fill_playback(&mut self, slice: &mut [u8]) -> (chunk: PlaybackChunk)
        requires
            old(self).wf(),
        ensures
            final(self).wf(),
            final(self)@ == (EngineView {
                playback: PlaybackView {
                    ring: old(self)@.playback.ring.popped(old(slice)@.len()),
                    ..old(self)@.playback
                },
                ..old(self)@
            }),
            final(slice)@ == old(self)@.playback.ring.output(old(slice)@.len()),
            chunk.size == ring_buffer::least(
                old(slice)@.len(),
                old(self)@.playback.ring.contents.len(),
            ) as int % 0x1_0000_0000,
            chunk.stride == match old(self)@.playback.format {
                Some(f) => f.frame_len(),
                None => 4,
            },
            (final(self)@, final(slice)@) == filled(old(self)@, old(slice)@.len()),
            chunk.size as int == chunk_size(old(self)@, old(slice)@.len()),
            chunk.stride as int == chunk_stride(old(self)@),
    {
        let read: usize = self.playback.buffer.pop(slice);
        let stride: i32 = match self.playback.format {
            Some(f) => f.bytes_per_frame() as i32,
            None => 4,
        };
        PlaybackChunk { size: bytes::length_u32(read), stride }
    }

    /// How many bytes a packet has.
    pub fn packet_size(&self) -> (n: u64)
        ensures
            n == packet_len(self@.capture),
    {
        match self.capture.format {
            Some(f) => {
                let frame: u32 = f.bytes_per_frame();
                proof {
                    let a = self.capture.frames_per_packet as int;
                    let b = frame as int;
                    assert(0 <= a * b <= 0xFFFF_FFFF * 7905) by (nonlinear_arith)
                        requires
                            0 <= a <= 0xFFFF_FFFF,
                            0 <= b <= 7905,
                    ;
                }
                (self.capture.frames_per_packet as u64) * (frame as u64)
            },
            None => 0,
        }
    }

    /// Takes captured samples and gives the packets that are complete. While
    /// samples are captured, a packet has at least one byte.
    pub fn capture_samples(&mut self, samples: &[u8], size: u32) -> (out: Vec<FromAudio>)
        requires
            old(self).wf(),
            old(self)@.capture.active ==> packet_len(old(self)@.capture) > 0,
        ensures
            final(self).wf(),
            !old(self)@.capture.active ==> final(self)@ == old(self)@ && out@.len() == 0,
            old(self)@.capture.active ==> {
                let all = old(self)@.capture.accumulated + captured_part(samples@, size);
                let len = packet_len(old(self)@.capture);
                &&& final(self)@ == (EngineView {
                    capture: CaptureView {
                        accumulated: leftover(all, len),
                        ..old(self)@.capture
                    },
                    ..old(self)@
                })
                &&& views::seq_view(out@) == Seq::new(
                    packets(all, len).len(),
                    |i: int|
                        ReportView::CapturedData {
                            data: packets(all, len)[i],
                            format: old(self)@.capture.format->0,
                        },
                )
            },
            (final(self)@, views::seq_view(out@)) == captured(old(self)@, samples@, size),
    {
        let mut out: Vec<FromAudio> = Vec::new();
        if !self.capture.active {
            return out;
        }
        let format = match self.capture.format {
            Some(f) => f,
            None => {
                return out;
            },
        };
        let ghost before = self@;
        let len: u64 = self.packet_size();
        let n: usize = if (size as u64) < samples.len() as u64 {
            size as usize
        } else {
            samples.len()
        };
        bytes::push_bytes(&mut self.capture.frame_accumulator, &samples[0..n]);
        let ghost all = self.capture.frame_accumulator@;
        assert(samples@.subrange(0, n as int) == captured_part(samples@, size));
        let ghost wanted = packets(all, len as int);
        let mut rest = bytes::copy_bytes(self.capture.frame_accumulator.as_slice());
        let ghost reports = Seq::new(
            wanted.len(),
            |i: int| ReportView::CapturedData { data: wanted[i], format },
        );
        assert(wanted.take(0) + packets(rest@, len as int) == wanted);
        while rest.len() as u64 >= len
            invariant
                len > 0,
                wanted == packets(all, len as int),
                out@.len() <= wanted.len(),
                wanted.take(out@.len() as int) + packets(rest@, len as int) == wanted,
                leftover(rest@, len as int) == leftover(all, len as int),
                reports == Seq::new(
                    wanted.len(),
                    |i: int| ReportView::CapturedData { data: wanted[i], format },
                ),
                views::seq_view(out@) == reports.take(out@.len() as int),
            decreases rest@.len(),
        {
            let ghost k = out@.len() as int;
            let ghost old_rest = rest@;
            let tail = rest.split_off(len as usize);
            let report = FromAudio::CapturedData { data: rest, format };
            proof {
                assert(old_rest.take(len as int) == rest@);
                assert(old_rest.skip(len as int) == tail@);
                let more = packets(old_rest, len as int);
                assert(more == seq![rest@] + packets(tail@, len as int));
                assert(wanted[k] == more[0]) by {
                    assert((wanted.take(k) + more)[k] == more[0]);
                }
                assert(wanted.take(k + 1) + packets(tail@, len as int) == wanted) by {
                    assert(wanted.take(k + 1) == wanted.take(k).push(rest@));
                    assert(wanted.take(k).push(rest@) + packets(tail@, len as int) == wanted.take(
                        k,
                    ) + more);
                }
                views::lemma_seq_view_push(out@, report);
            }
            out.push(report);
            rest = tail;
            assert(views::seq_view(out@) == reports.take(k + 1));
        }
        assert(packets(rest@, len as int) == Seq::<Seq<u8>>::empty());
        assert(out@.len() == wanted.len()) by {
            assert(wanted.take(out@.len() as int) + Seq::<Seq<u8>>::empty() == wanted);
        }
        self.capture.frame_accumulator = rest;
        assert(views::seq_view(out@) == reports);
        out
    }
}

/// What a thread without an audio server does with a command.
#[derive(Debug)]
pub enum StubAction {
    /// End.
    Quit,
    /// Send a report.
    Send(FromAudio),
    /// Nothing.
    Ignore,
}

/// What a thread without an audio server does with a command.
pub fn stub_handle(command: &ToAudio) -> (a: StubAction)
    ensures
        match command@ {
            CommandView::Shutdown => a == StubAction::Quit,
            CommandView::StartCapture { .. } => a matches StubAction::Send(r) && r@ == (
            ReportView::CaptureError("PipeWire not available on this platform"@)),
            _ => a == StubAction::Ignore,
        },
{
    match command {
        ToAudio::Shutdown => StubAction::Quit,
        ToAudio::StartCapture { .. } => StubAction::Send(
            FromAudio::CaptureError("PipeWire not available on this platform".to_owned()),
        ),
        _ => StubAction::Ignore,
    }
}

/// How the wait for the end of the thread goes on.
#[derive(Debug, Clone, Copy, PartialEq, Eq, Structural)]
pub enum ShutdownStep {
    /// The thread has ended and can be joined.
    Join,
    /// It has not, and there is time left.
    Wait,
    /// It has not, and the time is over.
    TimedOut,
}

/// How the wait for the end of the thread goes on.
pub open spec fn step_of_wait(finished: bool, elapsed_nanos: int) -> ShutdownStep {
    if finished {
        ShutdownStep::Join
    } else if elapsed_nanos > 2_000_000_000 {
        ShutdownStep::TimedOut
    } else {
        ShutdownStep::Wait
    }
}

/// How the wait for the end of the thread goes on.
pub fn shutdown_step(finished: bool, elapsed_nanos: u128) -> (s: ShutdownStep)
    ensures
        s == step_of_wait(finished, elapsed_nanos as int),
        s == (if finished {
            ShutdownStep::Join
        } else if elapsed_nanos > 1_000_000_000 * SHUTDOWN_TIMEOUT_SECS {
            ShutdownStep::TimedOut
        } else {
            ShutdownStep::Wait
        }),
{
    if finished {
        ShutdownStep::Join
    } else if elapsed_nanos > SHUTDOWN_TIMEOUT_NANOS {
        ShutdownStep::TimedOut
    } else {
        ShutdownStep::Wait
    }
}

/// No sample is lost or reordered: the packets and what is left over are the
/// samples.
pub proof fn law_packets_keep_samples(samples: Seq<u8>, len: int)
    ensures
        joined(packets(samples, len)) + leftover(samples, len) == samples,
    decreases samples.len(),
{
    if len > 0 && samples.len() >= len {
        law_packets_keep_samples(samples.skip(len), len);
        let p = packets(samples, len);
        assert(p.drop_first() == packets(samples.skip(len), len));
        assert(p[0] == samples.take(len));
        assert(samples == samples.take(len) + samples.skip(len));
        assert(joined(p) + leftover(samples, len) == samples.take(len) + (joined(p.drop_first())
            + leftover(samples.skip(len), len)));
    }
}

/// Every packet is whole, and less than a packet is left over.
pub proof fn law_packets_are_whole(samples: Seq<u8>, len: int)
    requires
        len > 0,
    ensures
        forall|i: int|
            0 <= i < packets(samples, len).len() ==> (#[trigger] packets(samples, len)[i]).len()
                == len,
        leftover(samples, len).len() < len,
    decreases samples.len(),
{
    if samples.len() >= len {
        let rest = samples.skip(len);
        law_packets_are_whole(rest, len);
        assert forall|i: int| 0 <= i < packets(samples, len).len() implies (
        #[trigger] packets(samples, len)[i]).len() == len by {
            if i > 0 {
                assert(packets(samples, len)[i] == packets(rest, len)[i - 1]);
            }
        }
    }
}

/// A change of format drops what was to be played; samples of the same format
/// are appended.
pub proof fn law_format_change_clears(e: EngineView, data: Seq<u8>, format: AudioFormat)
    requires
        e.playback.ring.wf(),
        data.len() <= e.playback.ring.capacity,
    ensures
        e.playback.format != Some(format) ==> on_command(
            e,
            CommandView::PlayAudio { data, format },
        ).0.playback.ring.contents == data,
        e.playback.format == Some(format) && e.playback.ring.contents.len() + data.len()
            <= e.playback.ring.capacity ==> on_command(
            e,
            CommandView::PlayAudio { data, format },
        ).0.playback.ring.contents == e.playback.ring.contents + data,
{
    assert(Seq::<u8>::empty() + data =~= data);
}

/// The thread runs until it is told to end or its commands are cut off, and
/// capturing that was under way is reported as ended.
pub proof fn law_shutdown_reports_capture(e: EngineView, c: CommandView)
    ensures
        e.running ==> (on_command(e, c).0.running <==> c !is Shutdown),
        !on_disconnected(e).0.running,
        e.capture.active ==> on_command(e, CommandView::Shutdown).1[0] == ActionView::Send(
            ReportView::CaptureStopped,
        ),
        e.capture.active ==> on_disconnected(e).1[0] == ActionView::Send(
            ReportView::CaptureStopped,
        ),
        !on_command(e, CommandView::StopCapture).0.capture.active,
        !on_command(e, CommandView::Shutdown).0.capture.active,
{
}

} // verus!
