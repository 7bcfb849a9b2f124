//! What the server is told on the audio input channel.
use vstd::prelude::*;

use crate::audin;
use crate::audin::pdu;
use crate::audin::pdu::{AudinPduView, MessageType};
use crate::audin::{AudinState, AudinView};
use crate::audio::laws;
use crate::audio::messages::{AudioFormat, CommandView, ReportView};
use crate::audio::thread;
use crate::audio::thread::EngineView;
use crate::bytes;

verus! {

/// The kinds of messages on the wire.
pub proof fn law_message_types_on_the_wire()
    ensures
        MessageType::of_number(1) == Some(MessageType::Version),
        MessageType::of_number(2) == Some(MessageType::SoundFormats),
        MessageType::of_number(3) == Some(MessageType::Open),
        MessageType::of_number(4) == Some(MessageType::OpenReply),
        MessageType::of_number(5) == Some(MessageType::DataIncoming),
        MessageType::of_number(6) == Some(MessageType::Data),
        MessageType::of_number(7) == Some(MessageType::FormatChange),
        pdu::AUDIN_VERSION == 1,
{
}

/// A message is the number of its kind and its payload.
pub proof fn law_message_is_tagged(t: MessageType, payload: Seq<u8>)
    ensures
        pdu::tagged(t, payload).len() == payload.len() + 1,
        pdu::tagged(t, payload).skip(1) == payload,
        MessageType::of_number(pdu::tagged(t, payload)[0]) == Some(t),
{
    assert(pdu::tagged(t, payload).skip(1) =~= payload);
}

/// The message is an open reply with the result zero, which is success.
pub open spec fn is_success(message: Seq<u8>) -> bool {
    message == seq![0x04u8, 0, 0, 0, 0]
}

/// Whenever a message begins a capture, the server is told in one reply that opening
/// succeeded; and a server that is told of an opening is told of success, by a handler
/// that captures.
pub proof fn law_capture_is_told_as_success(h: AudinView, p: AudinPduView, i: int)
    requires
        0 <= i < audin::on_audin(h, p).1.len(),
    ensures
        ({
            let (after, replies) = audin::on_audin(h, p);
            &&& replies.len() == 1
            &&& h.state != AudinState::Capturing && after.state == AudinState::Capturing
                ==> is_success(replies[0])
            &&& replies[i].len() > 0 && replies[i][0] == 0x04 ==> is_success(replies[i])
                && after.state == AudinState::Capturing
        }),
{
    if p is Open {
        assert(audin::on_audin(h, p).1[0] =~= seq![0x04u8, 0, 0, 0, 0]);
    }
}

/// A request to open is answered with success, the handler captures in the format and
/// in the packets that were asked for, and the audio thread, where there is one, is
/// told to.
pub proof fn law_open_begins_capture(h: AudinView, format: AudioFormat, frames_per_packet: u32)
    ensures
        ({
            let (after, replies) = audin::on_audin(
                h,
                AudinPduView::Open { format, frames_per_packet },
            );
            &&& replies.len() == 1 && is_success(replies[0])
            &&& after.state == AudinState::Capturing
            &&& after.current_format == Some(format)
            &&& after.frames_per_packet == frames_per_packet
            &&& after.channel_id == h.channel_id && after.has_audio == h.has_audio
            &&& after.has_capture == h.has_capture
            &&& h.has_audio ==> after.commands == h.commands.push(
                CommandView::StartCapture { format, frames_per_packet },
            )
            &&& !h.has_audio ==> after.commands == h.commands
        }),
{
    let (after, replies) = audin::on_audin(h, AudinPduView::Open { format, frames_per_packet });
    assert(replies[0] =~= seq![0x04u8, 0, 0, 0, 0]);
}

/// The same of the bytes of a request: the number of frames is in bytes 1 to 4, the
/// number of channels in byte 11, the sample rate in bytes 13 to 16 and the number of
/// bits in byte 23. A request of less than 27 bytes is refused.
pub proof fn law_open_is_read_from_the_wire(h: AudinView, m: Seq<u8>)
    requires
        m.len() > 0,
        m[0] == 0x03,
    ensures
        m.len() < 27 ==> audin::on_audin_payload(h, m) is Err,
        m.len() >= 27 ==> match audin::on_audin_payload(h, m) {
            Ok((after, replies)) => {
                &&& replies.len() == 1 && is_success(replies[0])
                &&& after.state == AudinState::Capturing
                &&& after.frames_per_packet == m[1] + 256 * m[2] + 65536 * m[3] + 16777216 * m[4]
                &&& after.current_format matches Some(f)
                &&& f.channels == m[11]
                &&& f.sample_rate == m[13] + 256 * m[14] + 65536 * m[15] + 16777216 * m[16]
                &&& f.bits_per_sample == m[23]
            },
            Err(_) => false,
        },
{
    if m.len() >= 27 {
        let p = m.skip(1);
        assert(bytes::le16_at(p, 10) % 256 == m[11]);
        assert(bytes::le16_at(p, 22) % 256 == m[23]);
        let o = pdu::decode_open(p)->Ok_0;
        law_open_begins_capture(h, o.format, o.frames_per_packet);
    }
}

/// A version is answered with version one.
pub proof fn law_version_is_answered(h: AudinView, version: u32)
    ensures
        ({
            let (after, replies) = audin::on_audin(h, AudinPduView::Version(version));
            &&& replies == seq![seq![0x01u8, 1, 0, 0, 0]]
            &&& after.state == AudinState::VersionExchanged
            &&& after == (AudinView { state: after.state, ..h })
        }),
{
    let replies = audin::on_audin(h, AudinPduView::Version(version)).1;
    assert(replies[0] =~= seq![0x01u8, 1, 0, 0, 0]);
    assert(replies =~= seq![seq![0x01u8, 1, 0, 0, 0]]);
}

/// A change of the format is confirmed as it came, and changes nothing; data that
/// comes from the server is passed over.
pub proof fn law_format_change_is_confirmed(h: AudinView, new_format: u32, data: Seq<u8>)
    ensures
        ({
            let (after, replies) = audin::on_audin(h, AudinPduView::FormatChange { new_format });
            &&& after == h
            &&& replies.len() == 1 && replies[0].len() == 5 && replies[0][0] == 0x07
            &&& new_format == replies[0][1] + 256 * replies[0][2] + 65536 * replies[0][3]
                + 16777216 * replies[0][4]
        }),
        audin::on_audin(h, AudinPduView::Data(data)) == (h, Seq::<Seq<u8>>::empty()),
        audin::on_audin_payload(h, Seq::empty())->Ok_0 == (h, Seq::<Seq<u8>>::empty()),
{
}

/// The formats that the client captures in: PCM with 16 bits, at 48 kHz in mono and in
/// stereo and at 44.1 kHz in mono.
pub open spec fn is_captured(f: AudioFormat) -> bool {
    &&& f.bits_per_sample == 16
    &&& f.sample_rate == 48000 && (f.channels == 1 || f.channels == 2) || f.sample_rate == 44100
        && f.channels == 1
}

/// Answered are the formats that both sides have, or all of the client's where they
/// have none in common; mono at 48 kHz comes first where both have it.
pub proof fn law_common_formats_are_answered(theirs: Seq<AudioFormat>, f: AudioFormat)
    ensures
        audin::supported().len() == 3,
        audin::supported().contains(f) <==> is_captured(f),
        (exists|g: AudioFormat| is_captured(g) && #[trigger] theirs.contains(g)) ==> (
        audin::answered_formats(theirs).contains(f) <==> is_captured(f) && theirs.contains(f)),
        !(exists|g: AudioFormat| is_captured(g) && #[trigger] theirs.contains(g)) ==> (
        audin::answered_formats(theirs) == audin::supported()),
        audin::supported()[0] == (AudioFormat {
            sample_rate: 48000,
            channels: 1,
            bits_per_sample: 16,
        }),
        theirs.contains(audin::supported()[0]) ==> audin::answered_formats(theirs)[0]
            == audin::supported()[0],
{
    let s = audin::supported();
    assert(s[0].channels == 1 && s[1].channels == 2 && s[2].channels == 1);
    if is_captured(f) {
        assert(f == s[0] || f == s[1] || f == s[2]);
        assert(s.contains(s[0]) && s.contains(s[1]) && s.contains(s[2]));
    }
    audin::lemma_common_are_supported(s, theirs);
    let common = audin::common_formats(s, theirs);
    if common.contains(f) {
        let i = choose|i: int| 0 <= i < common.len() && common[i] == f;
        assert(s.contains(common[i]) && theirs.contains(common[i]));
    }
    if is_captured(f) && theirs.contains(f) {
        audin::law_common_format_is_answered(s, theirs, f);
    }
    if exists|g: AudioFormat| is_captured(g) && #[trigger] theirs.contains(g) {
        let g = choose|g: AudioFormat| is_captured(g) && #[trigger] theirs.contains(g);
        assert(g == s[0] || g == s[1] || g == s[2]);
        assert(s.contains(g));
        audin::law_common_format_is_answered(s, theirs, g);
        assert(common.len() > 0);
    } else {
        if common.len() > 0 {
            assert(s.contains(common[0]) && theirs.contains(common[0]));
            assert(is_captured(common[0]));
        }
    }
    if theirs.contains(s[0]) {
        let a = s.drop_last();
        let b = a.drop_last();
        let c = b.drop_last();
        assert(b.last() == s[0]);
        assert(c.len() == 0);
        assert(audin::common_formats(b, theirs)[0] == s[0]) by {
            reveal_with_fuel(audin::common_formats, 2);
        }
        assert(audin::common_formats(a, theirs)[0] == s[0]);
        assert(common[0] == s[0]);
    }
}

/// Two bytes and the number that they stand for.
proof fn lemma_le16_value(x: u16)
    ensures
        bytes::le16(x).len() == 2,
        bytes::le16(x)[0] + 256 * bytes::le16(x)[1] == x,
        x < 256 ==> bytes::le16(x)[0] == x && bytes::le16(x)[1] == 0,
{
}

/// Four bytes and the number that they stand for.
proof fn lemma_le32_value(x: u32)
    ensures
        bytes::le32(x).len() == 4,
        bytes::le32(x)[0] + 256 * bytes::le32(x)[1] + 65536 * bytes::le32(x)[2] + 16777216
            * bytes::le32(x)[3] == x,
{
}

/// A frame is at most 7905 bytes long, and the bytes of a second are those of its
/// frames.
proof fn lemma_format_sizes(f: AudioFormat)
    requires
        pdu::byte_rate(f) <= u32::MAX,
    ensures
        0 <= f.frame_len() <= 7905,
        pdu::byte_rate(f) == f.sample_rate * f.frame_len(),
        0 <= pdu::byte_rate(f),
{
    let c = f.channels as int;
    let n = f.bits_per_sample as int / 8;
    assert(0 <= c * n <= 7905) by (nonlinear_arith)
        requires
            0 <= c <= 255,
            0 <= n <= 31,
    ;
    let rate = f.sample_rate as int;
    let len = f.frame_len();
    assert(0 <= rate * len) by (nonlinear_arith)
        requires
            0 <= rate,
            0 <= len,
    ;
}

/// Where the fields of a format stand on the wire.
#[verifier::spinoff_prover]
pub proof fn law_format_on_the_wire(f: AudioFormat)
    requires
        pdu::byte_rate(f) <= u32::MAX,
    ensures
        ({
            let b = pdu::format_bytes(f);
            &&& b.len() == 18
            &&& b[0] == 1 && b[1] == 0
            &&& b[2] == f.channels && b[3] == 0
            &&& b[4] + 256 * b[5] + 65536 * b[6] + 16777216 * b[7] == f.sample_rate
            &&& b[8] + 256 * b[9] + 65536 * b[10] + 16777216 * b[11] == f.sample_rate
                * f.frame_len()
            &&& b[12] + 256 * b[13] == f.frame_len()
            &&& b[14] == f.bits_per_sample && b[15] == 0
            &&& b[16] == 0 && b[17] == 0
        }),
{
    lemma_format_sizes(f);
    let channels = bytes::le16(f.channels as u16);
    let rate = bytes::le32(f.sample_rate);
    let second = bytes::le32(pdu::byte_rate(f) as u32);
    let frame = bytes::le16(f.frame_len() as u16);
    let bits = bytes::le16(f.bits_per_sample as u16);
    lemma_le16_value(1);
    lemma_le16_value(0);
    lemma_le16_value(f.channels as u16);
    lemma_le32_value(f.sample_rate);
    lemma_le32_value(pdu::byte_rate(f) as u32);
    lemma_le16_value(f.frame_len() as u16);
    lemma_le16_value(f.bits_per_sample as u16);
    let b = pdu::format_bytes(f);
    assert(b == bytes::le16(1) + channels + rate + second + frame + bits + bytes::le16(0));
    lemma_parts(bytes::le16(1), channels, rate, second, frame, bits, bytes::le16(0));
}

/// Where the parts of seven joined ones stand.
proof fn lemma_parts(
    a: Seq<u8>,
    b: Seq<u8>,
    c: Seq<u8>,
    d: Seq<u8>,
    e: Seq<u8>,
    f: Seq<u8>,
    g: Seq<u8>,
)
    requires
        a.len() == 2 && b.len() == 2 && c.len() == 4 && d.len() == 4,
        e.len() == 2 && f.len() == 2 && g.len() == 2,
    ensures
        ({
            let s = a + b + c + d + e + f + g;
            &&& s.len() == 18
            &&& s[0] == a[0] && s[1] == a[1] && s[2] == b[0] && s[3] == b[1]
            &&& s[4] == c[0] && s[5] == c[1] && s[6] == c[2] && s[7] == c[3]
            &&& s[8] == d[0] && s[9] == d[1] && s[10] == d[2] && s[11] == d[3]
            &&& s[12] == e[0] && s[13] == e[1] && s[14] == f[0] && s[15] == f[1]
            &&& s[16] == g[0] && s[17] == g[1]
        }),
{
}

/// Where the fields of a format are read from.
pub proof fn law_format_is_read(p: Seq<u8>, at: int)
    requires
        0 <= at,
        at + 18 <= p.len(),
    ensures
        ({
            let f = pdu::format_at(p, at);
            &&& f.channels == p[at + 2]
            &&& f.sample_rate == p[at + 4] + 256 * p[at + 5] + 65536 * p[at + 6] + 16777216 * p[at
                + 7]
            &&& f.bits_per_sample == p[at + 14]
        }),
{
    assert(bytes::le16_at(p, at + 2) % 256 == p[at + 2]);
    assert(bytes::le16_at(p, at + 14) % 256 == p[at + 14]);
}

/// The answer with formats has their number in its bytes 1 to 4 and its own size in
/// the four bytes after that, and then 18 bytes for each of them.
pub proof fn law_formats_answer_on_the_wire(h: AudinView, theirs: Seq<AudioFormat>)
    ensures
        ({
            let (after, replies) = audin::on_audin(h, AudinPduView::SoundFormats(theirs));
            let n = audin::answered_formats(theirs).len();
            &&& after.state == AudinState::FormatsNegotiated
            &&& after == (AudinView { state: after.state, ..h })
            &&& replies.len() == 1
            &&& replies[0][0] == 0x02
            &&& replies[0][1] == n && replies[0][2] == 0 && replies[0][3] == 0 && replies[0][4] == 0
            &&& replies[0][5] == 9 + 18 * n && replies[0][6] == 0 && replies[0][7] == 0
                && replies[0][8] == 0
            &&& replies[0].len() == 9 + 18 * n
            &&& 1 <= n <= 3
        }),
{
    audin::law_answer_is_supported(theirs);
    lemma_fewer(audin::supported(), theirs);
    lemma_formats_len(audin::answered_formats(theirs));
}

/// There are no more common formats than own ones.
proof fn lemma_fewer(mine: Seq<AudioFormat>, theirs: Seq<AudioFormat>)
    ensures
        audin::common_formats(mine, theirs).len() <= mine.len(),
    decreases mine.len(),
{
    if mine.len() > 0 {
        lemma_fewer(mine.drop_last(), theirs);
    }
}

/// A format takes 18 bytes.
proof fn lemma_formats_len(formats: Seq<AudioFormat>)
    ensures
        pdu::formats_bytes(formats).len() == 18 * formats.len(),
    decreases formats.len(),
{
    if formats.len() > 0 {
        lemma_formats_len(formats.drop_last());
    }
}

/// What the messages of data hold, one after the other.
pub open spec fn sent_samples(messages: Seq<Seq<u8>>) -> Seq<u8>
    decreases messages.len(),
{
    if messages.len() == 0 {
        Seq::empty()
    } else {
        sent_samples(messages.drop_last()) + if messages.last()[0] == 0x06 {
            messages.last().skip(1)
        } else {
            Seq::empty()
        }
    }
}

/// What the audio thread reports as captured reaches the server, all of it, in order
/// and nothing else: a packet is announced and then sent, and nothing is sent for any
/// other report.
pub proof fn law_reported_samples_are_sent(reports: Seq<ReportView>)
    ensures
        sent_samples(audin::report_messages(reports)) == laws::reported_samples(reports),
        audin::report_messages(Seq::empty()).len() == 0,
        reports.len() > 0 ==> ({
            let before = audin::report_messages(reports.drop_last());
            let messages = audin::report_messages(reports);
            match reports.last() {
                ReportView::CapturedData { data, .. } => messages == before + seq![
                    seq![0x05u8],
                    seq![0x06u8] + data,
                ],
                _ => messages == before,
            }
        }),
    decreases reports.len(),
{
    if reports.len() > 0 {
        law_reported_samples_are_sent(reports.drop_last());
        let before = audin::report_messages(reports.drop_last());
        let messages = audin::report_messages(reports);
        match reports.last() {
            ReportView::CapturedData { data, .. } => {
                assert(messages[messages.len() - 2] =~= seq![0x05u8]);
                assert(messages.last() =~= seq![0x06u8] + data);
                assert(messages =~= before + seq![seq![0x05u8], seq![0x06u8] + data]);
                assert(messages.drop_last().drop_last() =~= before);
                assert(messages.drop_last().last() == seq![0x05u8]);
                assert(sent_samples(messages.drop_last()) =~= sent_samples(before));
                assert(messages.last().skip(1) =~= data);
            },
            _ => {
                assert(sent_samples(messages) =~= laws::reported_samples(reports));
            },
        }
    }
}

/// Reports are sent on where the handler captures, has a channel and is told of them:
/// it captures on if and only if none of them ends the capture and the audio thread is
/// there. Elsewhere nothing is sent.
pub proof fn law_reports_are_sent_while_capturing(
    h: AudinView,
    reports: Seq<ReportView>,
    lost: bool,
)
    ensures
        ({
            let (after, messages) = audin::on_reports(h, reports, lost);
            let on = h.state == AudinState::Capturing && h.channel_id is Some && h.has_capture;
            let ended = exists|i: int|
                0 <= i < reports.len() && (#[trigger] reports[i] is CaptureError || reports[i]
                    is CaptureStopped);
            &&& !on ==> after == h && messages.len() == 0
            &&& on ==> messages == audin::report_messages(reports)
            &&& on ==> (after.state == AudinState::Capturing <==> !lost && !ended)
            &&& on ==> after.state == AudinState::Capturing || after.state
                == AudinState::FormatsNegotiated
            &&& after == (AudinView { state: after.state, ..h })
        }),
{
    if exists|i: int|
        0 <= i < reports.len() && (#[trigger] reports[i] is CaptureError || reports[i]
            is CaptureStopped) {
        let i = choose|i: int|
            0 <= i < reports.len() && (#[trigger] reports[i] is CaptureError || reports[i]
                is CaptureStopped);
        assert(audin::ends_capture(reports[i]));
    }
}

/// A handler begins without a channel, a format or a command. The start of the channel
/// begins the exchange anew; its end stops the capture.
pub proof fn law_channel_starts_and_ends(
    h: AudinView,
    channel_id: u32,
    has_audio: bool,
    has_capture: bool,
)
    ensures
        ({
            let fresh = audin::fresh_audin(has_audio, has_capture);
            &&& fresh.state == AudinState::Initial && fresh.channel_id is None
            &&& fresh.has_audio == has_audio && fresh.has_capture == has_capture
            &&& fresh.commands.len() == 0 && fresh.current_format is None
            &&& fresh.frames_per_packet == 0
        }),
        ({
            let started = audin::on_start(h, channel_id);
            &&& started.channel_id == Some(channel_id) && started.state == AudinState::Initial
            &&& started.commands == h.commands && started.has_audio == h.has_audio
            &&& started.has_capture == h.has_capture
        }),
        ({
            let closed = audin::on_close(h);
            &&& closed.state == AudinState::Closed && closed.channel_id is None
            &&& h.has_audio ==> closed.commands == h.commands.push(CommandView::StopCapture)
            &&& !h.has_audio ==> closed.commands == h.commands
            &&& !audin::listening(closed)
        }),
{
}

/// What the microphone picks up after the server's request reaches the server: the
/// request starts the audio thread, and of the samples that come then the server gets
/// all but those that do not fill a packet yet.
pub proof fn law_microphone_reaches_server(
    h: AudinView,
    e: EngineView,
    format: AudioFormat,
    frames_per_packet: u32,
    samples: Seq<u8>,
)
    requires
        h.has_audio,
        h.has_capture,
        h.channel_id is Some,
        frames_per_packet > 0,
        format.frame_len() > 0,
        samples.len() <= u32::MAX,
    ensures
        ({
            let opened = audin::on_audin(h, AudinPduView::Open { format, frames_per_packet }).0;
            let engine = thread::on_command(e, opened.commands.last()).0;
            let (later, reports) = thread::captured(engine, samples, samples.len() as u32);
            let messages = audin::on_reports(opened, reports, false).1;
            let sent = sent_samples(messages);
            &&& sent.is_prefix_of(samples)
            &&& samples.len() - sent.len() < frames_per_packet * format.frame_len()
            &&& sent + later.capture.accumulated == samples
        }),
{
    law_open_begins_capture(h, format, frames_per_packet);
    let opened = audin::on_audin(h, AudinPduView::Open { format, frames_per_packet }).0;
    laws::law_capture_is_started_and_stopped(e, format, frames_per_packet);
    let engine = thread::on_command(e, opened.commands.last()).0;
    let (a, b) = (frames_per_packet as int, format.frame_len());
    assert(a * b > 0) by (nonlinear_arith)
        requires
            a > 0,
            b > 0,
    ;
    laws::law_captured_samples_are_reported(engine, samples);
    let (later, reports) = thread::captured(engine, samples, samples.len() as u32);
    law_reported_samples_are_sent(reports);
    law_reports_are_sent_while_capturing(opened, reports, false);
    let sent = laws::reported_samples(reports);
    assert(engine.capture.accumulated + samples =~= samples);
    assert(sent =~= samples.take(sent.len() as int));
}

/// Of the formats of the server those of PCM are taken, in their order; others are
/// passed over with their additional bytes, and no more are read than it says.
pub proof fn law_formats_are_read_one_by_one(p: Seq<u8>, at: int, left: int)
    requires
        0 <= at,
        at + 18 <= p.len(),
        left > 0,
    ensures
        ({
            let next = at + 18 + p[at + 16] + 256 * p[at + 17];
            let rest = pdu::pcm_formats(p, next, left - 1);
            let tag = p[at] + 256 * p[at + 1];
            &&& tag == 1 ==> pdu::pcm_formats(p, at, left) == seq![pdu::format_at(p, at)] + rest
            &&& tag != 1 ==> pdu::pcm_formats(p, at, left) == rest
            &&& pdu::pcm_formats(p, at, 0).len() == 0
            &&& pdu::pcm_formats(p, p.len() - 17, left).len() == 0
        }),
{
}

/// What the server says of its formats begins with their number; the first of them is
/// behind eight bytes.
pub proof fn law_formats_begin_behind_head(p: Seq<u8>)
    ensures
        p.len() < 8 ==> pdu::decode_sound_formats(p) is Err,
        p.len() >= 8 ==> pdu::decode_sound_formats(p) == Ok::<
            Seq<AudioFormat>,
            pdu::AudinErrorView,
        >(
            pdu::pcm_formats(
                p,
                8,
                p[0] + 0x100 * p[1] + 0x1_0000 * p[2] + 0x100_0000 * p[3],
            ),
        ),
        p.len() < 4 ==> pdu::decode_version(p) is Err && pdu::decode_format_change(p) is Err,
        p.len() >= 4 ==> pdu::decode_version(p)->Ok_0 == p[0] + 0x100 * p[1] + 0x1_0000 * p[2]
            + 0x100_0000 * p[3] && pdu::decode_format_change(p) == pdu::decode_version(p),
        p.len() >= 26 ==> pdu::decode_open(p)->Ok_0.initial_format == p[4] + 0x100 * p[5]
            + 0x1_0000 * p[6] + 0x100_0000 * p[7],
{
}

/// A message without bytes and one of an unknown or a client's kind is refused, and
/// said which.
pub proof fn law_strange_messages_are_refused(h: AudinView, m: Seq<u8>)
    requires
        m.len() > 0,
    ensures
        m[0] == 0 || m[0] > 7 ==> match audin::on_audin_payload(h, m) {
            Err(pdu::AudinErrorView::InvalidMessageType(n)) => n == m[0],
            _ => false,
        },
        m[0] == 4 ==> match audin::on_audin_payload(h, m) {
            Err(pdu::AudinErrorView::UnexpectedPdu(t)) => t == MessageType::OpenReply,
            _ => false,
        },
        m[0] == 5 ==> match audin::on_audin_payload(h, m) {
            Err(pdu::AudinErrorView::UnexpectedPdu(t)) => t == MessageType::DataIncoming,
            _ => false,
        },
        m[0] == 6 ==> match audin::on_audin_payload(h, m) {
            Ok((after, replies)) => after == h && replies.len() == 0,
            Err(_) => false,
        },
{
}

/// A message that is too short is refused with the length that it has and the one that
/// it needs, both without the byte of its kind.
pub proof fn law_short_messages_are_refused(h: AudinView, m: Seq<u8>)
    requires
        m.len() > 0,
    ensures
        ({
            let needed: int = if m[0] == 1 || m[0] == 7 {
                4
            } else if m[0] == 2 {
                8
            } else if m[0] == 3 {
                26
            } else {
                0
            };
            m.len() - 1 < needed ==> match audin::on_audin_payload(h, m) {
                Err(pdu::AudinErrorView::PayloadTooShort { expected, actual, .. }) => expected
                    == needed && actual == m.len() - 1,
                _ => false,
            }
        }),
{
}

} // verus!
