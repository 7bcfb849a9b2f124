//! What holds of the audio thread as a whole: what the server sends is played, and
//! what the microphone picks up is handed on.
use vstd::prelude::*;

use crate::audio::messages;
use crate::audio::messages::{AudioFormat, CommandView, ReportView};
use crate::audio::ring_buffer;
use crate::audio::thread;
use crate::audio::thread::{ActionView, EngineView, SampleFormat, ShutdownStep};
use crate::rdpsnd;
use crate::rdpsnd::RdpsndView;

verus! {

/// A frame has a sample of each channel: where a sample has whole bytes, eight times
/// the length of a frame is the number of its bits.
pub proof fn law_frame_has_a_sample_of_each_channel(f: AudioFormat)
    requires
        f.bits_per_sample % 8 == 0,
    ensures
        8 * f.frame_len() == f.channels * f.bits_per_sample,
{
    let c = f.channels as int;
    let b = f.bits_per_sample as int;
    assert(8 * (c * (b / 8)) == c * b) by (nonlinear_arith)
        requires
            b % 8 == 0,
    ;
}

/// The formats that the server is told of are PCM with 16 bits, in stereo at 48 and at
/// 44.1 kHz and in mono at 48 kHz, in this order.
pub proof fn law_playable_formats()
    ensures
        rdpsnd::playable().len() == 3,
        forall|i: int|
            0 <= i < 3 ==> (#[trigger] rdpsnd::playable()[i]).format == 1
                && rdpsnd::playable()[i].bits_per_sample == 16,
        rdpsnd::playable()[0].n_samples_per_sec == 48000 && rdpsnd::playable()[0].n_channels == 2,
        rdpsnd::playable()[1].n_samples_per_sec == 44100 && rdpsnd::playable()[1].n_channels == 2,
        rdpsnd::playable()[2].n_samples_per_sec == 48000 && rdpsnd::playable()[2].n_channels == 1,
        rdpsnd::playable()[0].n_avg_bytes_per_sec == 192000,
        rdpsnd::playable()[1].n_avg_bytes_per_sec == 176400,
        rdpsnd::playable()[2].n_avg_bytes_per_sec == 96000,
        rdpsnd::playable()[0].n_block_align == 4 && rdpsnd::playable()[1].n_block_align == 4
            && rdpsnd::playable()[2].n_block_align == 2,
{
}

/// A wave is played as it came, in the format of its number among those that the
/// server was told of, and in stereo at 48 kHz where there is no such number. What was
/// to be played before is played before.
pub proof fn law_wave_is_played_in_its_format(h: RdpsndView, format_no: int, data: Seq<u8>)
    ensures
        ({
            let after = rdpsnd::on_wave(h, format_no, data);
            let known = 0 <= format_no < rdpsnd::playable().len();
            let f = rdpsnd::playable()[format_no];
            &&& after.commands.len() == h.commands.len() + 1
            &&& after.commands.drop_last() == h.commands
            &&& match after.commands.last() {
                CommandView::PlayAudio { data: played, format } => {
                    &&& played == data
                    &&& after.current_format == Some(format)
                    &&& known ==> format.sample_rate == f.n_samples_per_sec && format.channels
                        == f.n_channels && format.bits_per_sample == f.bits_per_sample
                    &&& !known ==> format.sample_rate == 48000 && format.channels == 2
                        && format.bits_per_sample == 16
                },
                _ => false,
            }
        }),
{
    assert(rdpsnd::on_wave(h, format_no, data).commands.drop_last() =~= h.commands);
}

/// A change of the volume is handed on as the sum of its two sides, and changes
/// nothing else.
pub proof fn law_volume_is_handed_on(h: RdpsndView, left: u16, right: u16)
    ensures
        ({
            let after = rdpsnd::on_volume(h, left, right);
            &&& after.current_format == h.current_format
            &&& after.commands.len() == h.commands.len() + 1
            &&& after.commands.drop_last() == h.commands
            &&& match after.commands.last() {
                CommandView::SetVolume(v) => v == left + right,
                _ => false,
            }
        }),
        messages::FULL_VOLUME == 2 * u16::MAX,
        rdpsnd::fresh_rdpsnd().commands.len() == 0,
        rdpsnd::fresh_rdpsnd().current_format is None,
{
    assert(rdpsnd::on_volume(h, left, right).commands.drop_last() =~= h.commands);
}

/// What was played is heard: of a wave in a new format the playback buffers get its
/// samples from the first one on, however they are cut, and the stream is made anew in
/// that format.
pub proof fn law_wave_is_heard(e: EngineView, data: Seq<u8>, format: AudioFormat, n: nat)
    requires
        e.playback.ring.wf(),
        e.playback.format != Some(format),
        n <= data.len() <= e.playback.ring.capacity,
    ensures
        ({
            let (after, actions) = thread::on_command(e, CommandView::PlayAudio { data, format });
            let (later, first) = thread::filled(after, n);
            let (_, second) = thread::filled(later, (data.len() - n) as nat);
            &&& actions == seq![ActionView::CreatePlayback(format)]
            &&& after.capture == e.capture && after.running == e.running
            &&& thread::chunk_stride(after) == format.frame_len()
            &&& first == data.take(n as int)
            &&& second == data.skip(n as int)
            &&& first + second == data
            &&& later.capture == e.capture
        }),
{
    let (after, actions) = thread::on_command(e, CommandView::PlayAudio { data, format });
    thread::law_format_change_clears(e, data, format);
    let (later, first) = thread::filled(after, n);
    let (_, second) = thread::filled(later, (data.len() - n) as nat);
    assert(first =~= data.take(n as int));
    assert(second =~= data.skip(n as int));
    assert(first + second =~= data);
}

/// A wave in the same format is heard after what is still to be played, without a new
/// stream.
pub proof fn law_waves_are_heard_in_order(
    e: EngineView,
    a: Seq<u8>,
    b: Seq<u8>,
    format: AudioFormat,
)
    requires
        e.playback.ring.wf(),
        e.playback.format != Some(format),
        a.len() + b.len() <= e.playback.ring.capacity,
    ensures
        ({
            let first = thread::on_command(e, CommandView::PlayAudio { data: a, format }).0;
            let (second, actions) = thread::on_command(
                first,
                CommandView::PlayAudio { data: b, format },
            );
            &&& actions == Seq::<ActionView>::empty()
            &&& thread::filled(second, a.len() + b.len()).1 == a + b
            &&& thread::chunk_size(second, a.len() + b.len()) == (a.len() + b.len())
                % 0x1_0000_0000
        }),
{
    let first = thread::on_command(e, CommandView::PlayAudio { data: a, format }).0;
    thread::law_format_change_clears(e, a, format);
    thread::law_format_change_clears(first, b, format);
    let second = thread::on_command(first, CommandView::PlayAudio { data: b, format }).0;
    assert(thread::filled(second, a.len() + b.len()).1 =~= a + b);
}

/// Where there is nothing to play the playback buffers are silent, and hold no samples.
pub proof fn law_nothing_to_play_is_silence(e: EngineView, n: nat, i: int)
    requires
        e.playback.ring.contents.len() == 0,
        0 <= i < n,
    ensures
        thread::filled(e, n).1.len() == n,
        thread::filled(e, n).1[i] == 0,
        thread::chunk_size(e, n) == 0,
        e.playback.format is None ==> thread::chunk_stride(e) == 4,
{
}

/// The thread captures what it is asked to: in the format and in packets of the
/// number of frames that it was given, from then on. A stop stops it and says so.
pub proof fn law_capture_is_started_and_stopped(
    e: EngineView,
    format: AudioFormat,
    frames_per_packet: u32,
)
    ensures
        ({
            let (on, started) = thread::on_command(
                e,
                CommandView::StartCapture { format, frames_per_packet },
            );
            let (off, stopped) = thread::on_command(on, CommandView::StopCapture);
            &&& on.capture.active && on.capture.format == Some(format)
            &&& on.capture.frames_per_packet == frames_per_packet
            &&& on.capture.accumulated.len() == 0
            &&& thread::packet_len(on.capture) == frames_per_packet * format.frame_len()
            &&& on.playback == e.playback && on.running == e.running
            &&& started == seq![ActionView::CreateCapture { format, frames_per_packet }]
            &&& !off.capture.active && off.capture.format is None
            &&& off.playback == e.playback && off.running == e.running
            &&& stopped == seq![
                ActionView::DisconnectCapture,
                ActionView::Send(ReportView::CaptureStopped),
            ]
            &&& thread::on_command(off, CommandView::StopCapture) == (
                off,
                Seq::<ActionView>::empty(),
            )
        }),
{
}

/// The thread answers a question for its statistics with those of the playback ring, a
/// cleared ring is empty and as large as before, and the volume is left to the
/// streams.
pub proof fn law_buffer_commands(e: EngineView, volume: u32)
    requires
        e.playback.ring.contents.len() <= usize::MAX,
        e.playback.ring.capacity <= usize::MAX,
    ensures
        ({
            let (same, told) = thread::on_command(e, CommandView::GetBufferStats);
            &&& same == e
            &&& told.len() == 1
            &&& match told[0] {
                ActionView::Send(ReportView::BufferStats(s)) => {
                    &&& s.current_fill == e.playback.ring.contents.len()
                    &&& s.capacity == e.playback.ring.capacity
                    &&& s.overflows == e.playback.ring.overflows
                    &&& s.underruns == e.playback.ring.underruns
                    &&& s.bytes_written == e.playback.ring.bytes_written
                    &&& s.bytes_read == e.playback.ring.bytes_read
                },
                _ => false,
            }
        }),
        ({
            let (cleared, told) = thread::on_command(e, CommandView::ClearBuffer);
            &&& told.len() == 0
            &&& cleared.playback.ring.contents.len() == 0
            &&& cleared.playback.ring.capacity == e.playback.ring.capacity
            &&& cleared.playback.ring.bytes_written == 0 && cleared.playback.ring.bytes_read == 0
            &&& cleared.playback.ring.overflows == 0 && cleared.playback.ring.underruns == 0
            &&& cleared.playback.format == e.playback.format
            &&& cleared.capture == e.capture && cleared.running == e.running
        }),
        thread::on_command(e, CommandView::SetVolume(volume)) == (e, Seq::<ActionView>::empty()),
{
}

/// The end of the thread disconnects both streams and comes last; so it does where
/// nobody commands the thread any more. A capture that runs is reported as stopped
/// first.
pub proof fn law_thread_ends_in_order(e: EngineView)
    ensures
        ({
            let (ended, actions) = thread::on_command(e, CommandView::Shutdown);
            let (lost, last) = thread::on_disconnected(e);
            &&& !ended.running && !lost.running
            &&& actions.last() == ActionView::Quit && last.last() == ActionView::Quit
            &&& actions.contains(ActionView::DisconnectPlayback)
            &&& actions.contains(ActionView::DisconnectCapture)
            &&& actions.contains(ActionView::Send(ReportView::CaptureStopped))
                <==> e.capture.active
            &&& last.contains(ActionView::Send(ReportView::CaptureStopped)) <==> e.capture.active
            &&& actions.len() == if e.capture.active {
                4int
            } else {
                3
            }
        }),
{
    let actions = thread::on_command(e, CommandView::Shutdown).1;
    let last = thread::on_disconnected(e).1;
    let n = actions.len() as int;
    assert(actions[n - 3] == ActionView::DisconnectPlayback);
    assert(actions[n - 2] == ActionView::DisconnectCapture);
    if e.capture.active {
        assert(actions[0] == ActionView::Send(ReportView::CaptureStopped));
        assert(last[0] == ActionView::Send(ReportView::CaptureStopped));
    }
}

/// The samples of the packets that are reported, one after the other.
pub open spec fn reported_samples(reports: Seq<ReportView>) -> Seq<u8>
    decreases reports.len(),
{
    if reports.len() == 0 {
        Seq::empty()
    } else {
        reported_samples(reports.drop_last()) + match reports.last() {
            ReportView::CapturedData { data, .. } => data,
            _ => Seq::empty(),
        }
    }
}

/// The samples of reports of packets are the packets joined.
pub proof fn lemma_reported_packets(packets: Seq<Seq<u8>>, format: AudioFormat)
    ensures
        reported_samples(
            Seq::new(
                packets.len(),
                |i: int| ReportView::CapturedData { data: packets[i], format },
            ),
        ) == thread::joined(packets),
    decreases packets.len(),
{
    let reports = Seq::new(
        packets.len(),
        |i: int| ReportView::CapturedData { data: packets[i], format },
    );
    if packets.len() > 0 {
        let before = packets.drop_last();
        lemma_reported_packets(before, format);
        assert(reports.drop_last() =~= Seq::new(
            before.len(),
            |i: int| ReportView::CapturedData { data: before[i], format },
        ));
        lemma_joined_push(before, packets.last());
        assert(before.push(packets.last()) =~= packets);
    }
}

/// Packets with one more are those packets and that one.
pub proof fn lemma_joined_push(p: Seq<Seq<u8>>, last: Seq<u8>)
    ensures
        thread::joined(p.push(last)) == thread::joined(p) + last,
    decreases p.len(),
{
    if p.len() == 0 {
        reveal_with_fuel(thread::joined, 2);
        assert(p.push(last).drop_first() =~= Seq::<Seq<u8>>::empty());
        assert(thread::joined(p.push(last)) =~= last);
        assert(thread::joined(p) + last =~= last);
    } else {
        lemma_joined_push(p.drop_first(), last);
        assert(p.push(last).drop_first() =~= p.drop_first().push(last));
        assert(thread::joined(p.push(last)) =~= thread::joined(p) + last);
    }
}

/// No captured sample is lost or told twice: what is reported, and what waits for the
/// next packet, are what waited before and the samples that came, in order. What waits
/// does not fill a packet, and every report has the format that was asked for.
pub proof fn law_captured_samples_are_reported(e: EngineView, samples: Seq<u8>)
    requires
        e.capture.active,
        thread::packet_len(e.capture) > 0,
        samples.len() <= u32::MAX,
    ensures
        ({
            let (after, reports) = thread::captured(e, samples, samples.len() as u32);
            &&& reported_samples(reports) + after.capture.accumulated == e.capture.accumulated
                + samples
            &&& after.capture.accumulated.len() < thread::packet_len(e.capture)
            &&& after.capture.active && after.capture.format == e.capture.format
            &&& after.capture.frames_per_packet == e.capture.frames_per_packet
            &&& after.playback == e.playback && after.running == e.running
            &&& forall|i: int|
                0 <= i < reports.len() ==> match #[trigger] reports[i] {
                    ReportView::CapturedData { data, format } => {
                        &&& data.len() == thread::packet_len(e.capture)
                        &&& Some(format) == e.capture.format
                    },
                    _ => false,
                }
        }),
{
    let all = e.capture.accumulated + samples;
    let len = thread::packet_len(e.capture);
    thread::law_packets_keep_samples(all, len);
    thread::law_packets_are_whole(all, len);
    lemma_reported_packets(thread::packets(all, len), e.capture.format->0);
}

/// Of a buffer the first `size` bytes are samples; where nothing is captured nothing is
/// reported.
pub proof fn law_samples_beyond_size_are_left(e: EngineView, samples: Seq<u8>, size: u32)
    ensures
        size <= samples.len() ==> thread::captured(e, samples, size) == thread::captured(
            e,
            samples.take(size as int),
            size,
        ),
        !e.capture.active ==> thread::captured(e, samples, size) == (
            e,
            Seq::<ReportView>::empty(),
        ),
        size <= samples.len() ==> thread::captured_part(samples, size) == samples.take(
            size as int,
        ),
        size >= samples.len() ==> thread::captured_part(samples, size) == samples,
{
    if size <= samples.len() {
        assert(samples.take(size as int).take(size as int) =~= samples.take(size as int));
        assert(samples.take(samples.len() as int) =~= samples);
    }
}

/// The thread begins idle and with an empty ring of 65536 bytes, and waits two seconds
/// for its end at most. Samples of 24 and 32 bits are told as such.
pub proof fn law_thread_settings(finished: bool, elapsed_nanos: int)
    ensures
        !thread::idle_capture().active && thread::idle_capture().format is None,
        thread::idle_capture().frames_per_packet == 480,
        thread::idle_capture().accumulated.len() == 0,
        ring_buffer::fresh_ring(65536).capacity == 65536,
        ring_buffer::fresh_ring(65536).contents.len() == 0,
        ring_buffer::DEFAULT_BUFFER_CAPACITY == 65536,
        thread::SHUTDOWN_TIMEOUT_SECS == 2,
        thread::step_of_wait(finished, elapsed_nanos) == ShutdownStep::Join <==> finished,
        thread::step_of_wait(finished, elapsed_nanos) == ShutdownStep::TimedOut <==> !finished
            && elapsed_nanos > 2_000_000_000,
        thread::sample_format_of(16) == SampleFormat::S16LE,
        thread::sample_format_of(24) == SampleFormat::S24LE,
        thread::sample_format_of(32) == SampleFormat::S32LE,
{
}

} // verus!
