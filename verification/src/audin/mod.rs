//! The audio input channel (AUDIN): sending the microphone to the server.
//!
//! The handler queues commands for the audio thread, and turns what the audio
//! thread reports into messages.
use vstd::prelude::*;

use crate::audio::messages::{AudioFormat, CommandView, FromAudio, ReportView, ToAudio};
use crate::bytes;
use crate::views;

pub mod laws;
pub mod pdu;

use pdu::{
    AudinDvcMessage, AudinError, AudinErrorView, AudinPdu, AudinPduView, ClientSoundFormats,
    DataIncoming, DataPdu, FormatChange, MessageType, OpenReply, VersionPdu, AUDIN_VERSION,
};

verus! {

/// The name of the channel.
pub const AUDIN_CHANNEL_NAME: &'static str = "AUDIO_INPUT";

/// The formats that the client captures in, the preferred one first.
pub open spec fn supported() -> Seq<AudioFormat> {
    seq![
        AudioFormat { sample_rate: 48000, channels: 1, bits_per_sample: 16 },
        AudioFormat { sample_rate: 48000, channels: 2, bits_per_sample: 16 },
        AudioFormat { sample_rate: 44100, channels: 1, bits_per_sample: 16 },
    ]
}

/// The formats that the client captures in, the preferred one first.
pub fn supported_formats() -> (formats: Vec<AudioFormat>)
    ensures
        formats@ == supported(),
{
    let mut formats: Vec<AudioFormat> = Vec::new();
    formats.push(AudioFormat::new(48000, 1, 16));
    formats.push(AudioFormat::new(48000, 2, 16));
    formats.push(AudioFormat::new(44100, 1, 16));
    assert(formats@ == supported());
    formats
}

/// How far the channel is set up.
#[derive(Debug, Clone, Copy, PartialEq, Eq, Structural)]
pub enum AudinState {
    /// No version was exchanged.
    Initial,
    /// Versions are exchanged.
    VersionExchanged,
    /// Formats are exchanged.
    FormatsNegotiated,
    /// Samples are captured.
    Capturing,
    /// The channel is closed.
    Closed,
}

/// The handler of the audio input channel.
#[derive(Debug)]
pub struct YardAudinHandler {
    /// How far the channel is set up.
    pub state: AudinState,
    /// Whether there is an audio thread to command.
    pub has_audio: bool,
    /// Whether the audio thread reports captured samples.
    pub has_capture: bool,
    /// The format that the server asked for.
    pub current_format: Option<AudioFormat>,
    /// How many frames a packet has.
    pub frames_per_packet: u32,
    /// The number of the channel.
    pub channel_id: Option<u32>,
    /// Commands that were not taken yet.
    pub commands: Vec<ToAudio>,
}

/// The view of `YardAudinHandler`.
pub struct AudinView {
    /// How far the channel is set up.
    pub state: AudinState,
    /// Whether there is an audio thread to command.
    pub has_audio: bool,
    /// Whether the audio thread reports captured samples.
    pub has_capture: bool,
    /// The format that the server asked for.
    pub current_format: Option<AudioFormat>,
    /// How many frames a packet has.
    pub frames_per_packet: u32,
    /// The number of the channel.
    pub channel_id: Option<u32>,
    /// Commands that were not taken yet.
    pub commands: Seq<CommandView>,
}

impl View for YardAudinHandler {
    type V = AudinView;

    open spec fn view(&self) -> AudinView {
        AudinView {
            state: self.state,
            has_audio: self.has_audio,
            has_capture: self.has_capture,
            current_format: self.current_format,
            frames_per_packet: self.frames_per_packet,
            channel_id: self.channel_id,
            commands: views::seq_view(self.commands@),
        }
    }
}

/// The formats of `mine` that `theirs` holds, too, in the order of `mine`.
pub open spec fn common_formats(mine: Seq<AudioFormat>, theirs: Seq<AudioFormat>) -> Seq<
    AudioFormat,
>
    decreases mine.len(),
{
    if mine.len() == 0 {
        Seq::empty()
    } else if theirs.contains(mine.last()) {
        common_formats(mine.drop_last(), theirs).push(mine.last())
    } else {
        common_formats(mine.drop_last(), theirs)
    }
}

/// The formats that the client answers with: those in common, or all of its own
/// where there are none.
pub open spec fn answered_formats(theirs: Seq<AudioFormat>) -> Seq<AudioFormat> {
    let common = common_formats(supported(), theirs);
    if common.len() == 0 {
        supported()
    } else {
        common
    }
}

/// The handler after a command: queued where there is an audio thread.
pub open spec fn with_command(h: AudinView, c: CommandView) -> AudinView {
    if h.has_audio {
        AudinView { commands: h.commands.push(c), ..h }
    } else {
        h
    }
}

/// What one message from the server leads to: the handler and the messages to
/// send.
pub open spec fn on_audin(h: AudinView, p: AudinPduView) -> (AudinView, Seq<Seq<u8>>) {
    match p {
        AudinPduView::Version(_) => (
            AudinView { state: AudinState::VersionExchanged, ..h },
            seq![pdu::tagged(MessageType::Version, bytes::le32(1))],
        ),
        AudinPduView::SoundFormats(theirs) => (
            AudinView { state: AudinState::FormatsNegotiated, ..h },
            seq![
                pdu::tagged(
                    MessageType::SoundFormats,
                    pdu::formats_payload(answered_formats(theirs)),
                ),
            ],
        ),
        AudinPduView::Open { format, frames_per_packet } => (
            with_command(
                AudinView {
                    state: AudinState::Capturing,
                    current_format: Some(format),
                    frames_per_packet,
                    ..h
                },
                CommandView::StartCapture { format, frames_per_packet },
            ),
            seq![pdu::tagged(MessageType::OpenReply, bytes::le32(0))],
        ),
        AudinPduView::FormatChange { new_format } => (
            h,
            seq![pdu::tagged(MessageType::FormatChange, bytes::le32(new_format))],
        ),
        AudinPduView::Data(_) => (h, Seq::empty()),
    }
}

/// What the bytes of one message lead to.
pub open spec fn on_audin_payload(h: AudinView, payload: Seq<u8>) -> Result<
    (AudinView, Seq<Seq<u8>>),
    AudinErrorView,
> {
    if payload.len() == 0 {
        Ok((h, Seq::empty()))
    } else {
        match pdu::decode_audin(payload) {
            Ok(p) => Ok(on_audin(h, p)),
            Err(e) => Err(e),
        }
    }
}

/// Captured samples are wanted.
pub open spec fn listening(h: AudinView) -> bool {
    h.state == AudinState::Capturing && h.channel_id is Some && h.has_capture
}

/// The messages for reports of the audio thread: an announcement and the samples
/// for each packet.
pub open spec fn report_messages(reports: Seq<ReportView>) -> Seq<Seq<u8>>
    decreases reports.len(),
{
    if reports.len() == 0 {
        Seq::empty()
    } else {
        let before = report_messages(reports.drop_last());
        match reports.last() {
            ReportView::CapturedData { data, .. } => before.push(
                pdu::tagged(MessageType::DataIncoming, Seq::empty()),
            ).push(pdu::tagged(MessageType::Data, data)),
            _ => before,
        }
    }
}

/// Capturing ended, or failed.
pub open spec fn ends_capture(r: ReportView) -> bool {
    r is CaptureError || r is CaptureStopped
}

/// Some report says that capturing ended.
pub open spec fn some_ends_capture(reports: Seq<ReportView>) -> bool {
    exists|i: int| 0 <= i < reports.len() && ends_capture(#[trigger] reports[i])
}

/// What reports of the audio thread lead to; `lost` says that there will be no
/// more.
pub open spec fn on_reports(h: AudinView, reports: Seq<ReportView>, lost: bool) -> (
    AudinView,
    Seq<Seq<u8>>,
) {
    if !listening(h) {
        (h, Seq::empty())
    } else {
        (
            AudinView {
                state: if lost || some_ends_capture(reports) {
                    AudinState::FormatsNegotiated
                } else {
                    AudinState::Capturing
                },
                ..h
            },
            report_messages(reports),
        )
    }
}

/// One message.
fn one_message(m: AudinDvcMessage) -> (v: Vec<AudinDvcMessage>)
    ensures
        views::seq_view(v@) == seq![m@],
{
    let mut v: Vec<AudinDvcMessage> = Vec::new();
    v.push(m);
    assert(views::seq_view(v@) == seq![m@]);
    v
}

/// No message.
fn no_messages() -> (v: Vec<AudinDvcMessage>)
    ensures
        views::seq_view(v@) == Seq::<Seq<u8>>::empty(),
{
    let v: Vec<AudinDvcMessage> = Vec::new();
    assert(views::seq_view(v@) == Seq::<Seq<u8>>::empty());
    v
}

/// Tests whether a format is among the formats.
fn holds_format(formats: &[AudioFormat], f: &AudioFormat) -> (b: bool)
    ensures
        b == formats@.contains(*f),
{
    let mut i: usize = 0;
    while i < formats.len()
        invariant
            i <= formats@.len(),
            forall|j: int| 0 <= j < i ==> formats@[j] != *f,
        decreases formats@.len() - i,
    {
        if formats[i].sample_rate == f.sample_rate && formats[i].channels == f.channels
            && formats[i].bits_per_sample == f.bits_per_sample {
            assert(formats@[i as int] == *f);
            return true;
        }
        i = i + 1;
    }
    false
}

/// Formats that are the client's own fit in their message.
proof fn lemma_answer_fits(theirs: Seq<AudioFormat>)
    ensures
        pdu::rates_fit(answered_formats(theirs)),
{
    lemma_common_are_supported(supported(), theirs);
    assert forall|i: int| 0 <= i < answered_formats(theirs).len() implies pdu::byte_rate(
        #[trigger] answered_formats(theirs)[i],
    ) <= u32::MAX by {
        let f = answered_formats(theirs)[i];
        assert(supported().contains(f));
        assert(f.sample_rate <= 48000 && f.frame_len() <= 4);
        let a = f.sample_rate as int;
        let b = f.frame_len();
        assert(a * b <= 48000 * 4) by (nonlinear_arith)
            requires
                0 <= a <= 48000,
                b <= 4,
        ;
    }
}

/// Formats in common are formats of both sides.
pub proof fn lemma_common_are_supported(mine: Seq<AudioFormat>, theirs: Seq<AudioFormat>)
    ensures
        forall|i: int|
            0 <= i < common_formats(mine, theirs).len() ==> mine.contains(
                #[trigger] common_formats(mine, theirs)[i],
            ) && theirs.contains(common_formats(mine, theirs)[i]),
    decreases mine.len(),
{
    if mine.len() > 0 {
        lemma_common_are_supported(mine.drop_last(), theirs);
        let common = common_formats(mine, theirs);
        let fewer = common_formats(mine.drop_last(), theirs);
        assert forall|i: int| 0 <= i < common.len() implies mine.contains(#[trigger] common[i])
            && theirs.contains(common[i]) by {
            if i < fewer.len() {
                assert(common[i] == fewer[i]);
                let k = mine.drop_last().index_of(fewer[i]);
                assert(mine[k] == fewer[i]);
            } else {
                assert(mine[mine.len() - 1] == common[i]);
            }
        }
    }
}

impl YardAudinHandler {
    /// A handler; the flags say whether there is an audio thread to command and
    /// whether it reports captured samples.
    pub fn new(has_audio: bool, has_capture: bool) -> (h: YardAudinHandler)
        ensures
            h@ == fresh_audin(has_audio, has_capture),
    {
        let h = YardAudinHandler {
            state: AudinState::Initial,
            has_audio,
            has_capture,
            current_format: None,
            frames_per_packet: 0,
            channel_id: None,
            commands: Vec::new(),
        };
        assert(views::seq_view(h.commands@) == Seq::<CommandView>::empty());
        h
    }

    /// Queues a command where there is an audio thread.
    fn send_command(&mut self, command: ToAudio)
        ensures
            final(self)@ == with_command(old(self)@, command@),
    {
        if self.has_audio {
            proof {
                views::lemma_seq_view_push(self.commands@, command);
            }
            self.commands.push(command);
        }
    }

    /// Takes the queued commands.
    pub fn take_commands(&mut self) -> (commands: Vec<ToAudio>)
        ensures
            views::seq_view(commands@) == old(self)@.commands,
            final(self)@ == (AudinView { commands: Seq::empty(), ..old(self)@ }),
    {
        let mut commands: Vec<ToAudio> = Vec::new();
        commands.append(&mut self.commands);
        assert(commands@ == old(self).commands@);
        assert(views::seq_view(self.commands@) == Seq::<CommandView>::empty());
        commands
    }

    /// Tests whether captured samples are wanted: the reports of the audio thread
    /// are left where they are while they are not.
    pub fn is_listening(&self) -> (b: bool)
        ensures
            b == listening(self@),
    {
        self.state == AudinState::Capturing && self.channel_id.is_some() && self.has_capture
    }

    /// Turns reports of the audio thread into messages; `lost` says that there
    /// will be no more.
    pub fn poll(&mut self, reports: Vec<FromAudio>, lost: bool) -> (messages: Vec<AudinDvcMessage>)
        ensures
            (final(self)@, views::seq_view(messages@)) == on_reports(
                old(self)@,
                views::seq_view(reports@),
                lost,
            ),
    {
        let mut messages = no_messages();
        if !self.is_listening() {
            return messages;
        }
        let ghost all = views::seq_view(reports@);
        let mut ended = lost;
        assert(report_messages(all.take(0)) == Seq::<Seq<u8>>::empty());
        for report in iter: reports
            invariant
                iter.seq() == reports@,
                all == views::seq_view(reports@),
                views::seq_view(messages@) == report_messages(all.take(iter.index() as int)),
                ended == (lost || some_ends_capture(all.take(iter.index() as int))),
        {
            let ghost k = iter.index() as int;
            let ghost done = all.take(k);
            let ghost longer = all.take(k + 1);
            proof {
                assert(longer.drop_last() == done);
                assert(longer.last() == report@);
                assert forall|i: int| 0 <= i < done.len() implies done[i] == #[trigger] longer[i] by {
                }
                if some_ends_capture(longer) {
                    let i = choose|i: int|
                        0 <= i < longer.len() && ends_capture(#[trigger] longer[i]);
                    if i < done.len() {
                        assert(ends_capture(done[i]));
                    }
                }
                if some_ends_capture(done) {
                    let i = choose|i: int| 0 <= i < done.len() && ends_capture(#[trigger] done[i]);
                    assert(ends_capture(longer[i]));
                }
                if ends_capture(report@) {
                    assert(ends_capture(longer[k]));
                }
            }
            match report {
                FromAudio::CapturedData { data, format: _ } => {
                    if let Ok(m) = AudinDvcMessage::from_data_incoming(&DataIncoming) {
                        proof {
                            views::lemma_seq_view_push(messages@, m);
                        }
                        messages.push(m);
                    }
                    if let Ok(m) = AudinDvcMessage::from_data(&DataPdu::new(data)) {
                        proof {
                            views::lemma_seq_view_push(messages@, m);
                        }
                        messages.push(m);
                    }
                },
                FromAudio::CaptureError(_) => {
                    ended = true;
                },
                FromAudio::CaptureStopped => {
                    ended = true;
                },
                FromAudio::BufferStats(_) => {},
            }
        }
        assert(all.take(all.len() as int) == all);
        if ended {
            self.state = AudinState::FormatsNegotiated;
        }
        messages
    }

    /// The server's version.
    pub fn handle_version(&mut self, _pdu: &VersionPdu) -> (r: Result<
        Vec<AudinDvcMessage>,
        AudinError,
    >)
        ensures
            r is Ok,
            (final(self)@, views::seq_view(r->Ok_0@)) == on_audin(
                old(self)@,
                AudinPduView::Version(_pdu@),
            ),
    {
        match AudinDvcMessage::from_version(&VersionPdu::new(AUDIN_VERSION)) {
            Ok(m) => {
                self.state = AudinState::VersionExchanged;
                Ok(one_message(m))
            },
            Err(e) => Err(e),
        }
    }

    /// The server's formats.
    pub fn handle_sound_formats(&mut self, server_formats: &[AudioFormat]) -> (r: Result<
        Vec<AudinDvcMessage>,
        AudinError,
    >)
        ensures
            r is Ok,
            (final(self)@, views::seq_view(r->Ok_0@)) == on_audin(
                old(self)@,
                AudinPduView::SoundFormats(server_formats@),
            ),
    {
        let mine = supported_formats();
        let mut common: Vec<AudioFormat> = Vec::new();
        let mut i: usize = 0;
        assert(mine@.take(0) == Seq::<AudioFormat>::empty());
        while i < mine.len()
            invariant
                i <= mine@.len(),
                common@ == common_formats(mine@.take(i as int), server_formats@),
            decreases mine@.len() - i,
        {
            proof {
                let longer = mine@.take(i + 1);
                assert(longer.drop_last() == mine@.take(i as int));
                assert(longer.last() == mine@[i as int]);
            }
            if holds_format(server_formats, &mine[i]) {
                common.push(mine[i]);
            }
            i = i + 1;
        }
        assert(mine@.take(mine@.len() as int) == mine@);
        let answer = if common.len() == 0 {
            mine
        } else {
            common
        };
        assert(answer@ == answered_formats(server_formats@));
        proof {
            lemma_answer_fits(server_formats@);
        }
        match AudinDvcMessage::from_sound_formats(&ClientSoundFormats::new(answer.as_slice())) {
            Ok(m) => {
                self.state = AudinState::FormatsNegotiated;
                Ok(one_message(m))
            },
            Err(e) => Err(e),
        }
    }

    /// The server asks for samples.
    pub fn handle_open(&mut self, format: &AudioFormat, frames_per_packet: u32) -> (r: Result<
        Vec<AudinDvcMessage>,
        AudinError,
    >)
        ensures
            r is Ok,
            (final(self)@, views::seq_view(r->Ok_0@)) == on_audin(
                old(self)@,
                AudinPduView::Open { format: *format, frames_per_packet },
            ),
    {
        self.current_format = Some(*format);
        self.frames_per_packet = frames_per_packet;
        self.send_command(ToAudio::StartCapture { format: *format, frames_per_packet });
        match AudinDvcMessage::from_open_reply(&OpenReply::success()) {
            Ok(m) => {
                self.state = AudinState::Capturing;
                Ok(one_message(m))
            },
            Err(e) => Err(e),
        }
    }

    /// The server asks for another format: the change is acknowledged, and takes
    /// effect with the next request for samples.
    pub fn handle_format_change(&mut self, new_format: u32) -> (r: Result<
        Vec<AudinDvcMessage>,
        AudinError,
    >)
        ensures
            r is Ok,
            (final(self)@, views::seq_view(r->Ok_0@)) == on_audin(
                old(self)@,
                AudinPduView::FormatChange { new_format },
            ),
    {
        match AudinDvcMessage::from_format_change(&FormatChange::new(new_format)) {
            Ok(m) => Ok(one_message(m)),
            Err(e) => Err(e),
        }
    }

    /// The name of the channel.
    pub fn channel_name(&self) -> (s: &'static str)
        ensures
            s@ == "AUDIO_INPUT"@,
    {
        AUDIN_CHANNEL_NAME
    }

    /// The channel is started.
    pub fn start(&mut self, channel_id: u32) -> (r: Result<Vec<AudinDvcMessage>, AudinError>)
        ensures
            r is Ok,
            r->Ok_0@.len() == 0,
            final(self)@ == (AudinView {
                channel_id: Some(channel_id),
                state: AudinState::Initial,
                ..old(self)@
            }),
            final(self)@ == on_start(old(self)@, channel_id),
    {
        self.channel_id = Some(channel_id);
        self.state = AudinState::Initial;
        Ok(Vec::new())
    }

    /// Handles the bytes of one message.
    pub fn process(&mut self, _channel_id: u32, payload: &[u8]) -> (r: Result<
        Vec<AudinDvcMessage>,
        AudinError,
    >)
        ensures
            r is Ok <==> on_audin_payload(old(self)@, payload@) is Ok,
            r matches Ok(m) ==> on_audin_payload(old(self)@, payload@)->Ok_0 == (
                final(self)@,
                views::seq_view(m@),
            ),
            r matches Err(e) ==> on_audin_payload(old(self)@, payload@)->Err_0 == e@
                && final(self)@ == old(self)@,
    {
        if payload.len() == 0 {
            return Ok(no_messages());
        }
        match AudinPdu::decode(payload) {
            Ok(AudinPdu::Version(p)) => self.handle_version(&p),
            Ok(AudinPdu::SoundFormats(f)) => self.handle_sound_formats(f.as_slice()),
            Ok(AudinPdu::Open { format, frames_per_packet }) => {
                self.handle_open(&format, frames_per_packet)
            },
            Ok(AudinPdu::FormatChange { new_format }) => self.handle_format_change(new_format),
            Ok(AudinPdu::Data(_)) => Ok(no_messages()),
            Err(e) => Err(e),
        }
    }

    /// The channel is closed.
    pub fn close(&mut self, _channel_id: u32)
        ensures
            final(self)@ == on_close(old(self)@),
    {
        self.send_command(ToAudio::StopCapture);
        self.state = AudinState::Closed;
        self.channel_id = None;
    }
}

/// A fresh handler.
pub open spec fn fresh_audin(has_audio: bool, has_capture: bool) -> AudinView {
    AudinView {
        state: AudinState::Initial,
        has_audio,
        has_capture,
        current_format: None,
        frames_per_packet: 0,
        channel_id: None,
        commands: Seq::empty(),
    }
}

/// What the start of the channel leads to.
pub open spec fn on_start(h: AudinView, channel_id: u32) -> AudinView {
    AudinView { channel_id: Some(channel_id), state: AudinState::Initial, ..h }
}

/// What the end of the channel leads to.
pub open spec fn on_close(h: AudinView) -> AudinView {
    AudinView {
        state: AudinState::Closed,
        channel_id: None,
        ..with_command(h, CommandView::StopCapture)
    }
}

/// The handler of a connection.
pub fn create_audin_client(has_audio: bool, has_capture: bool) -> (h: YardAudinHandler)
    ensures
        h@ == fresh_audin(has_audio, has_capture),
{
    YardAudinHandler::new(has_audio, has_capture)
}

/// The client answers with formats of its own only, at least with one, and with
/// one that the server lacks only where they have none in common.
pub proof fn law_answer_is_supported(theirs: Seq<AudioFormat>)
    ensures
        answered_formats(theirs).len() > 0,
        forall|i: int|
            0 <= i < answered_formats(theirs).len() ==> supported().contains(
                #[trigger] answered_formats(theirs)[i],
            ),
        common_formats(supported(), theirs).len() > 0 ==> forall|i: int|
            0 <= i < answered_formats(theirs).len() ==> theirs.contains(
                #[trigger] answered_formats(theirs)[i],
            ),
{
    lemma_common_are_supported(supported(), theirs);
}

/// A format that both sides have is among the answer.
pub proof fn law_common_format_is_answered(
    mine: Seq<AudioFormat>,
    theirs: Seq<AudioFormat>,
    f: AudioFormat,
)
    requires
        mine.contains(f),
        theirs.contains(f),
    ensures
        common_formats(mine, theirs).contains(f),
    decreases mine.len(),
{
    let k = mine.index_of(f);
    let common = common_formats(mine, theirs);
    if mine.last() == f {
        assert(common[common.len() - 1] == f);
    } else {
        assert(mine.drop_last()[k] == f);
        law_common_format_is_answered(mine.drop_last(), theirs, f);
        let fewer = common_formats(mine.drop_last(), theirs);
        let j = fewer.index_of(f);
        assert(common[j] == f);
    }
}

/// The server reads the answer as the formats that were chosen.
pub proof fn law_answer_reaches_server(h: AudinView, theirs: Seq<AudioFormat>)
    ensures
        pdu::decode_audin(on_audin(h, AudinPduView::SoundFormats(theirs)).1[0]) == Ok::<
            AudinPduView,
            AudinErrorView,
        >(AudinPduView::SoundFormats(answered_formats(theirs))),
{
    lemma_common_len(supported(), theirs);
    pdu::law_sound_formats_round_trip(answered_formats(theirs));
}

/// No more formats are in common than there are.
proof fn lemma_common_len(mine: Seq<AudioFormat>, theirs: Seq<AudioFormat>)
    ensures
        common_formats(mine, theirs).len() <= mine.len(),
    decreases mine.len(),
{
    if mine.len() > 0 {
        lemma_common_len(mine.drop_last(), theirs);
    }
}

/// Capturing begins with a request of the server only, and ends with the channel.
pub proof fn law_capture_begins_with_open(
    h: AudinView,
    p: AudinPduView,
    reports: Seq<ReportView>,
    lost: bool,
)
    requires
        h.state != AudinState::Capturing,
    ensures
        on_audin(h, p).0.state == AudinState::Capturing <==> p is Open,
        on_reports(h, reports, lost) == (h, Seq::<Seq<u8>>::empty()),
        on_close(h).state == AudinState::Closed,
{
}

/// Samples that were captured before capturing ended are still sent, each after
/// its announcement.
pub proof fn law_packet_is_announced(reports: Seq<ReportView>, data: Seq<u8>, format: AudioFormat)
    ensures
        report_messages(reports.push(ReportView::CapturedData { data, format }))
            == report_messages(reports) + seq![
            pdu::tagged(MessageType::DataIncoming, Seq::empty()),
            pdu::tagged(MessageType::Data, data),
        ],
{
    let more = reports.push(ReportView::CapturedData { data, format });
    assert(more.drop_last() == reports);
    assert(report_messages(more) =~= report_messages(reports) + seq![
        pdu::tagged(MessageType::DataIncoming, Seq::empty()),
        pdu::tagged(MessageType::Data, data),
    ]);
}

} // verus!
