//! The messages of the audio input channel, after MS-RDPEAI.
use vstd::prelude::*;

use crate::audio::messages::AudioFormat;
use crate::bytes;
use crate::text;
use crate::views;

verus! {

/// Why an audio input message was not understood.
#[derive(Debug)]
pub enum AudinError {
    /// Unknown message type.
    InvalidMessageType(u8),
    /// Fewer bytes than the message needs.
    PayloadTooShort {
        /// What was being read.
        context: &'static str,
        /// How many bytes it needs.
        expected: usize,
        /// How many bytes there were.
        actual: usize,
    },
    /// A message that only the client sends.
    UnexpectedPdu(MessageType),
    /// No bytes at all.
    EmptyPayload,
}

/// The view of `AudinError`.
pub enum AudinErrorView {
    /// Unknown message type.
    InvalidMessageType(u8),
    /// Fewer bytes than the message needs.
    PayloadTooShort {
        /// What was being read.
        context: Seq<char>,
        /// How many bytes it needs.
        expected: int,
        /// How many bytes there were.
        actual: int,
    },
    /// A message that only the client sends.
    UnexpectedPdu(MessageType),
    /// No bytes at all.
    EmptyPayload,
}

impl View for AudinError {
    type V = AudinErrorView;

    open spec fn view(&self) -> AudinErrorView {
        match *self {
            AudinError::InvalidMessageType(n) => AudinErrorView::InvalidMessageType(n),
            AudinError::PayloadTooShort { context, expected, actual } => {
                AudinErrorView::PayloadTooShort {
                    context: context@,
                    expected: expected as int,
                    actual: actual as int,
                }
            },
            AudinError::UnexpectedPdu(t) => AudinErrorView::UnexpectedPdu(t),
            AudinError::EmptyPayload => AudinErrorView::EmptyPayload,
        }
    }
}

impl AudinErrorView {
    /// The text of the error.
    pub open spec fn text(self) -> Seq<char> {
        match self {
            AudinErrorView::InvalidMessageType(n) => "invalid AUDIN message type: 0x"@
                + text::hexadecimal(n as nat),
            AudinErrorView::PayloadTooShort { context, expected, actual } => {
                "AUDIN payload too short for "@ + context + ": expected "@ + text::decimal(
                    expected as nat,
                ) + ", got "@ + text::decimal(actual as nat)
            },
            AudinErrorView::UnexpectedPdu(t) => "unexpected AUDIN PDU from server: "@ + t.name(),
            AudinErrorView::EmptyPayload => "empty payload"@,
        }
    }
}

impl AudinError {
    /// The text of the error.
    pub fn message(&self) -> (s: String)
        ensures
            s@ == self@.text(),
    {
        let mut s = String::new();
        match self {
            AudinError::InvalidMessageType(n) => {
                s.push_str("invalid AUDIN message type: 0x");
                text::push_hexadecimal(&mut s, *n as u64);
            },
            AudinError::PayloadTooShort { context, expected, actual } => {
                s.push_str("AUDIN payload too short for ");
                s.push_str(context);
                s.push_str(": expected ");
                text::push_decimal(&mut s, *expected as u64);
                s.push_str(", got ");
                text::push_decimal(&mut s, *actual as u64);
            },
            AudinError::UnexpectedPdu(t) => {
                s.push_str("unexpected AUDIN PDU from server: ");
                s.push_str(t.label());
            },
            AudinError::EmptyPayload => {
                s.push_str("empty payload");
            },
        }
        assert(s@ == self@.text());
        s
    }
}

/// The version of the protocol.
pub const AUDIN_VERSION: u32 = 1;

/// The types of audio input messages.
#[derive(Debug, Clone, Copy, PartialEq, Eq, Structural)]
pub enum MessageType {
    /// The version of the protocol.
    Version,
    /// Formats on offer.
    SoundFormats,
    /// Begin to capture.
    Open,
    /// Answer to the request to capture.
    OpenReply,
    /// Samples follow.
    DataIncoming,
    /// Samples.
    Data,
    /// Another format is to be used.
    FormatChange,
}

impl MessageType {
    /// The number of the type on the wire.
    pub open spec fn number(self) -> u8 {
        match self {
            MessageType::Version => 0x01,
            MessageType::SoundFormats => 0x02,
            MessageType::Open => 0x03,
            MessageType::OpenReply => 0x04,
            MessageType::DataIncoming => 0x05,
            MessageType::Data => 0x06,
            MessageType::FormatChange => 0x07,
        }
    }

    /// The type with the given number.
    pub open spec fn of_number(value: u8) -> Option<MessageType> {
        match value {
            0x01 => Some(MessageType::Version),
            0x02 => Some(MessageType::SoundFormats),
            0x03 => Some(MessageType::Open),
            0x04 => Some(MessageType::OpenReply),
            0x05 => Some(MessageType::DataIncoming),
            0x06 => Some(MessageType::Data),
            0x07 => Some(MessageType::FormatChange),
            _ => None,
        }
    }

    /// The name of the type.
    pub open spec fn name(self) -> Seq<char> {
        match self {
            MessageType::Version => "Version"@,
            MessageType::SoundFormats => "SoundFormats"@,
            MessageType::Open => "Open"@,
            MessageType::OpenReply => "OpenReply"@,
            MessageType::DataIncoming => "DataIncoming"@,
            MessageType::Data => "Data"@,
            MessageType::FormatChange => "FormatChange"@,
        }
    }

    /// The number of the type on the wire.
    pub fn as_u8(self) -> (n: u8)
        ensures
            n == self.number(),
    {
        match self {
            MessageType::Version => 0x01,
            MessageType::SoundFormats => 0x02,
            MessageType::Open => 0x03,
            MessageType::OpenReply => 0x04,
            MessageType::DataIncoming => 0x05,
            MessageType::Data => 0x06,
            MessageType::FormatChange => 0x07,
        }
    }

    /// The name of the type.
    pub fn label(self) -> (s: &'static str)
        ensures
            s@ == self.name(),
    {
        match self {
            MessageType::Version => "Version",
            MessageType::SoundFormats => "SoundFormats",
            MessageType::Open => "Open",
            MessageType::OpenReply => "OpenReply",
            MessageType::DataIncoming => "DataIncoming",
            MessageType::Data => "Data",
            MessageType::FormatChange => "FormatChange",
        }
    }
}

impl TryFrom<u8> for MessageType {
    type Error = AudinError;

    fn try_from(value: u8) -> (r: Result<MessageType, AudinError>) {
        match value {
            0x01 => Ok(MessageType::Version),
            0x02 => Ok(MessageType::SoundFormats),
            0x03 => Ok(MessageType::Open),
            0x04 => Ok(MessageType::OpenReply),
            0x05 => Ok(MessageType::DataIncoming),
            0x06 => Ok(MessageType::Data),
            0x07 => Ok(MessageType::FormatChange),
            _ => Err(AudinError::InvalidMessageType(value)),
        }
    }
}

impl vstd::std_specs::convert::TryFromSpecImpl<u8> for MessageType {
    open spec fn obeys_try_from_spec() -> bool {
        true
    }

    open spec fn try_from_spec(value: u8) -> Result<MessageType, AudinError> {
        match MessageType::of_number(value) {
            Some(t) => Ok(t),
            None => Err(AudinError::InvalidMessageType(value)),
        }
    }
}

/// The tag of PCM samples.
pub const WAVE_FORMAT_PCM: u16 = 0x0001;

/// A message with the given type and payload.
pub open spec fn tagged(t: MessageType, payload: Seq<u8>) -> Seq<u8> {
    seq![t.number()] + payload
}

/// The error of a payload that is too short.
pub open spec fn too_short(context: Seq<char>, expected: int, p: Seq<u8>) -> AudinErrorView {
    AudinErrorView::PayloadTooShort { context, expected, actual: p.len() as int }
}

/// The version of the protocol.
#[derive(Debug, Clone, Copy)]
pub struct VersionPdu {
    /// The version.
    pub version: u32,
}

impl View for VersionPdu {
    type V = u32;

    open spec fn view(&self) -> u32 {
        self.version
    }
}

/// What `VersionPdu::decode` reads.
pub open spec fn decode_version(p: Seq<u8>) -> Result<u32, AudinErrorView> {
    if p.len() < 4 {
        Err(too_short("VersionPdu"@, 4, p))
    } else {
        Ok(bytes::le32_at(p, 0))
    }
}

impl VersionPdu {
    /// A message with the given version.
    pub fn new(version: u32) -> (p: VersionPdu)
        ensures
            p.version == version,
    {
        VersionPdu { version }
    }

    /// Reads the payload.
    pub fn decode(payload: &[u8]) -> (r: Result<VersionPdu, AudinError>)
        ensures
            views::result_view(r) == decode_version(payload@),
    {
        if payload.len() < 4 {
            return Err(
                AudinError::PayloadTooShort {
                    context: "VersionPdu",
                    expected: 4,
                    actual: payload.len(),
                },
            );
        }
        Ok(VersionPdu { version: bytes::u32_at(payload, 0) })
    }

    /// Writes the message.
    pub fn encode(&self) -> (r: Result<Vec<u8>, AudinError>)
        ensures
            r is Ok,
            r->Ok_0@ == tagged(MessageType::Version, bytes::le32(self.version)),
    {
        let mut buf: Vec<u8> = Vec::new();
        buf.push(MessageType::Version.as_u8());
        bytes::push_u32(&mut buf, self.version);
        assert(buf@ == tagged(MessageType::Version, bytes::le32(self.version)));
        Ok(buf)
    }
}

/// The server's formats.
#[derive(Debug, Clone)]
pub struct ServerSoundFormats {
    /// The PCM formats among them.
    pub formats: Vec<AudioFormat>,
}

impl View for ServerSoundFormats {
    type V = Seq<AudioFormat>;

    open spec fn view(&self) -> Seq<AudioFormat> {
        self.formats@
    }
}

/// The format in the 18 bytes at `at`; numbers of channels and bits above 255
/// keep their lower eight bits.
pub open spec fn format_at(p: Seq<u8>, at: int) -> AudioFormat {
    AudioFormat {
        sample_rate: bytes::le32_at(p, at + 4),
        channels: (bytes::le16_at(p, at + 2) % 256) as u8,
        bits_per_sample: (bytes::le16_at(p, at + 14) % 256) as u8,
    }
}

/// The PCM formats among `left` formats that start at `at`. Each takes 18 bytes
/// and as many more as its last field says; reading stops where no format fits.
pub open spec fn pcm_formats(p: Seq<u8>, at: int, left: int) -> Seq<AudioFormat>
    decreases left,
{
    if left <= 0 || at + 18 > p.len() {
        Seq::empty()
    } else {
        let rest = pcm_formats(p, at + 18 + bytes::le16_at(p, at + 16), left - 1);
        if bytes::le16_at(p, at) == 0x0001 {
            seq![format_at(p, at)] + rest
        } else {
            rest
        }
    }
}

/// What `ServerSoundFormats::decode` reads.
pub open spec fn decode_sound_formats(p: Seq<u8>) -> Result<Seq<AudioFormat>, AudinErrorView> {
    if p.len() < 8 {
        Err(too_short("ServerSoundFormats"@, 8, p))
    } else {
        Ok(pcm_formats(p, 8, bytes::le32_at(p, 0) as int))
    }
}

/// Reads the format in the 18 bytes at `at`.
fn read_format(payload: &[u8], at: usize) -> (f: AudioFormat)
    requires
        at + 18 <= payload@.len(),
    ensures
        f == format_at(payload@, at as int),
{
    assert(payload.len() == payload@.len());
    AudioFormat {
        sample_rate: bytes::u32_at(payload, at + 4),
        channels: (bytes::u16_at(payload, at + 2) % 256) as u8,
        bits_per_sample: (bytes::u16_at(payload, at + 14) % 256) as u8,
    }
}

impl ServerSoundFormats {
    /// Reads the payload.
    pub fn decode(payload: &[u8]) -> (r: Result<ServerSoundFormats, AudinError>)
        ensures
            views::result_view(r) == decode_sound_formats(payload@),
    {
        if payload.len() < 8 {
            return Err(
                AudinError::PayloadTooShort {
                    context: "ServerSoundFormats",
                    expected: 8,
                    actual: payload.len(),
                },
            );
        }
        let n: u32 = bytes::u32_at(payload, 0);
        let ghost all = pcm_formats(payload@, 8, n as int);
        let mut formats: Vec<AudioFormat> = Vec::new();
        let mut at: usize = 8;
        let mut i: u32 = 0;
        assert(formats@ + pcm_formats(payload@, at as int, n - i) == all);
        while i < n
            invariant_except_break
                i <= n,
                at <= payload@.len(),
                formats@ + pcm_formats(payload@, at as int, n - i) == all,
            ensures
                formats@ == all,
            decreases n - i,
        {
            if payload.len() - at < 18 {
                assert(formats@ + Seq::<AudioFormat>::empty() == all);
                break;
            }
            let ghost before = formats@;
            let extra: usize = bytes::u16_at(payload, at + 16) as usize;
            if bytes::u16_at(payload, at) == WAVE_FORMAT_PCM {
                let f = read_format(payload, at);
                formats.push(f);
                proof {
                    let rest = pcm_formats(payload@, at + 18 + extra, n - i - 1);
                    assert(before + (seq![f] + rest) == formats@ + rest);
                }
            }
            i = i + 1;
            if payload.len() - at - 18 < extra {
                proof {
                    assert(pcm_formats(payload@, at + 18 + extra, n - i) == Seq::<
                        AudioFormat,
                    >::empty());
                    assert(formats@ + Seq::<AudioFormat>::empty() == all);
                }
                break;
            }
            at = at + 18 + extra;
        }
        Ok(ServerSoundFormats { formats })
    }
}

/// The client's formats.
#[derive(Debug, Clone)]
pub struct ClientSoundFormats {
    /// The formats.
    pub formats: Vec<AudioFormat>,
}

/// Bytes of samples in a second.
pub open spec fn byte_rate(f: AudioFormat) -> int {
    f.sample_rate * f.frame_len()
}

/// The 18 bytes of a PCM format.
pub open spec fn format_bytes(f: AudioFormat) -> Seq<u8> {
    bytes::le16(0x0001) + bytes::le16(f.channels as u16) + bytes::le32(f.sample_rate)
        + bytes::le32(byte_rate(f) as u32) + bytes::le16(f.frame_len() as u16) + bytes::le16(
        f.bits_per_sample as u16,
    ) + bytes::le16(0)
}

/// Formats one after the other.
pub open spec fn formats_bytes(formats: Seq<AudioFormat>) -> Seq<u8>
    decreases formats.len(),
{
    if formats.len() == 0 {
        Seq::empty()
    } else {
        formats_bytes(formats.drop_last()) + format_bytes(formats.last())
    }
}

/// The payload of the client's formats: how many there are, the size of the
/// message, the formats. Both numbers keep their lower 32 bits.
pub open spec fn formats_payload(formats: Seq<AudioFormat>) -> Seq<u8> {
    bytes::le32((formats.len() as int % 0x1_0000_0000) as u32) + bytes::le32(
        ((9 + 18 * formats.len()) % 0x1_0000_0000) as u32,
    ) + formats_bytes(formats)
}

/// The byte rate of every format fits in its field.
pub open spec fn rates_fit(formats: Seq<AudioFormat>) -> bool {
    forall|i: int| 0 <= i < formats.len() ==> byte_rate(#[trigger] formats[i]) <= u32::MAX
}

/// Appends the 18 bytes of a PCM format.
fn push_format(buf: &mut Vec<u8>, f: &AudioFormat)
    requires
        byte_rate(*f) <= u32::MAX,
    ensures
        final(buf)@ == old(buf)@ + format_bytes(*f),
{
    let ghost before = buf@;
    let frame: u32 = f.bytes_per_frame();
    bytes::push_u16(buf, WAVE_FORMAT_PCM);
    bytes::push_u16(buf, f.channels as u16);
    bytes::push_u32(buf, f.sample_rate);
    assert(f.sample_rate * frame >= 0) by (nonlinear_arith)
        requires
            f.sample_rate >= 0,
            frame >= 0,
    ;
    bytes::push_u32(buf, f.sample_rate * frame);
    bytes::push_u16(buf, frame as u16);
    bytes::push_u16(buf, f.bits_per_sample as u16);
    bytes::push_u16(buf, 0);
    assert(buf@ == before + format_bytes(*f));
}

/// The size of the message keeps its lower 32 bits where the number of formats does.
proof fn lemma_size_field(n: int)
    ensures
        (9 + 18 * (n % 0x1_0000_0000)) % 0x1_0000_0000 == (9 + 18 * n) % 0x1_0000_0000,
{
    let count = n % 0x1_0000_0000;
    let q = n / 0x1_0000_0000;
    assert(9 + 18 * n == 0x1_0000_0000 * (18 * q) + (9 + 18 * count));
    vstd::arithmetic::div_mod::lemma_mod_multiples_vanish(18 * q, 9 + 18 * count, 0x1_0000_0000);
}

impl ClientSoundFormats {
    /// A message with the given formats.
    pub fn new(formats: &[AudioFormat]) -> (p: ClientSoundFormats)
        ensures
            p.formats@ == formats@,
    {
        ClientSoundFormats { formats: vstd::slice::slice_to_vec(formats) }
    }

    /// Writes the message.
    #[verifier::spinoff_prover]
    pub fn encode(&self) -> (r: Result<Vec<u8>, AudinError>)
        requires
            rates_fit(self.formats@),
        ensures
            r is Ok,
            r->Ok_0@ == tagged(MessageType::SoundFormats, formats_payload(self.formats@)),
    {
        let count: u32 = bytes::length_u32(self.formats.len());
        let size: u32 = ((9 + 18 * (count as u64)) % 0x1_0000_0000) as u32;
        proof {
            lemma_size_field(self.formats@.len() as int);
        }
        let mut buf: Vec<u8> = Vec::new();
        buf.push(MessageType::SoundFormats.as_u8());
        bytes::push_u32(&mut buf, count);
        bytes::push_u32(&mut buf, size);
        let ghost head = buf@;
        let mut i: usize = 0;
        assert(self.formats@.take(0) == Seq::<AudioFormat>::empty());
        while i < self.formats.len()
            invariant
                i <= self.formats@.len(),
                rates_fit(self.formats@),
                buf@ == head + formats_bytes(self.formats@.take(i as int)),
            decreases self.formats@.len() - i,
        {
            push_format(&mut buf, &self.formats[i]);
            proof {
                let longer = self.formats@.take(i + 1);
                assert(longer.drop_last() == self.formats@.take(i as int));
                assert(longer.last() == self.formats@[i as int]);
            }
            i = i + 1;
            assert(buf@ == head + formats_bytes(self.formats@.take(i as int)));
        }
        assert(self.formats@.take(self.formats@.len() as int) == self.formats@);
        assert(buf@ == tagged(MessageType::SoundFormats, formats_payload(self.formats@)));
        Ok(buf)
    }
}

/// Begin to capture.
#[derive(Debug, Clone, Copy)]
pub struct OpenPdu {
    /// How many frames a packet has.
    pub frames_per_packet: u32,
    /// The number of the format.
    pub initial_format: u32,
    /// The format.
    pub format: AudioFormat,
}

impl View for OpenPdu {
    type V = OpenPdu;

    open spec fn view(&self) -> OpenPdu {
        *self
    }
}

/// What `OpenPdu::decode` reads.
pub open spec fn decode_open(p: Seq<u8>) -> Result<OpenPdu, AudinErrorView> {
    if p.len() < 26 {
        Err(too_short("OpenPdu"@, 26, p))
    } else {
        Ok(
            OpenPdu {
                frames_per_packet: bytes::le32_at(p, 0),
                initial_format: bytes::le32_at(p, 4),
                format: format_at(p, 8),
            },
        )
    }
}

impl OpenPdu {
    /// Reads the payload.
    pub fn decode(payload: &[u8]) -> (r: Result<OpenPdu, AudinError>)
        ensures
            views::result_view(r) == decode_open(payload@),
    {
        if payload.len() < 26 {
            return Err(
                AudinError::PayloadTooShort {
                    context: "OpenPdu",
                    expected: 26,
                    actual: payload.len(),
                },
            );
        }
        Ok(
            OpenPdu {
                frames_per_packet: bytes::u32_at(payload, 0),
                initial_format: bytes::u32_at(payload, 4),
                format: read_format(payload, 8),
            },
        )
    }
}

/// Answer to the request to capture.
#[derive(Debug, Clone, Copy)]
pub struct OpenReply {
    /// Zero for success.
    pub result: u32,
}

impl OpenReply {
    /// Capturing has begun.
    pub fn success() -> (p: OpenReply)
        ensures
            p.result == 0,
    {
        OpenReply { result: 0 }
    }

    /// Capturing failed.
    pub fn failure(result: u32) -> (p: OpenReply)
        ensures
            p.result == result,
    {
        OpenReply { result }
    }

    /// Writes the message.
    pub fn encode(&self) -> (r: Result<Vec<u8>, AudinError>)
        ensures
            r is Ok,
            r->Ok_0@ == tagged(MessageType::OpenReply, bytes::le32(self.result)),
    {
        let mut buf: Vec<u8> = Vec::new();
        buf.push(MessageType::OpenReply.as_u8());
        bytes::push_u32(&mut buf, self.result);
        assert(buf@ == tagged(MessageType::OpenReply, bytes::le32(self.result)));
        Ok(buf)
    }
}

/// Samples follow.
#[derive(Debug, Clone, Copy)]
pub struct DataIncoming;

impl DataIncoming {
    /// Writes the message.
    pub fn encode(&self) -> (r: Result<Vec<u8>, AudinError>)
        ensures
            r is Ok,
            r->Ok_0@ == tagged(MessageType::DataIncoming, Seq::empty()),
    {
        let mut buf: Vec<u8> = Vec::new();
        buf.push(MessageType::DataIncoming.as_u8());
        assert(buf@ == tagged(MessageType::DataIncoming, Seq::empty()));
        Ok(buf)
    }
}

/// Samples.
#[derive(Debug, Clone)]
pub struct DataPdu {
    /// The samples.
    pub data: Vec<u8>,
}

impl DataPdu {
    /// A message with the given samples.
    pub fn new(data: Vec<u8>) -> (p: DataPdu)
        ensures
            p.data == data,
    {
        DataPdu { data }
    }

    /// Writes the message.
    pub fn encode(&self) -> (r: Result<Vec<u8>, AudinError>)
        ensures
            r is Ok,
            r->Ok_0@ == tagged(MessageType::Data, self.data@),
    {
        let mut buf: Vec<u8> = Vec::new();
        buf.push(MessageType::Data.as_u8());
        bytes::push_bytes(&mut buf, self.data.as_slice());
        assert(buf@ == tagged(MessageType::Data, self.data@));
        Ok(buf)
    }
}

/// Another format is to be used.
#[derive(Debug, Clone, Copy)]
pub struct FormatChange {
    /// The number of the format.
    pub new_format: u32,
}

impl View for FormatChange {
    type V = u32;

    open spec fn view(&self) -> u32 {
        self.new_format
    }
}

/// What `FormatChange::decode` reads.
pub open spec fn decode_format_change(p: Seq<u8>) -> Result<u32, AudinErrorView> {
    if p.len() < 4 {
        Err(too_short("FormatChange"@, 4, p))
    } else {
        Ok(bytes::le32_at(p, 0))
    }
}

impl FormatChange {
    /// A message with the given format.
    pub fn new(new_format: u32) -> (p: FormatChange)
        ensures
            p.new_format == new_format,
    {
        FormatChange { new_format }
    }

    /// Reads the payload.
    pub fn decode(payload: &[u8]) -> (r: Result<FormatChange, AudinError>)
        ensures
            views::result_view(r) == decode_format_change(payload@),
    {
        if payload.len() < 4 {
            return Err(
                AudinError::PayloadTooShort {
                    context: "FormatChange",
                    expected: 4,
                    actual: payload.len(),
                },
            );
        }
        Ok(FormatChange { new_format: bytes::u32_at(payload, 0) })
    }

    /// Writes the message.
    pub fn encode(&self) -> (r: Result<Vec<u8>, AudinError>)
        ensures
            r is Ok,
            r->Ok_0@ == tagged(MessageType::FormatChange, bytes::le32(self.new_format)),
    {
        let mut buf: Vec<u8> = Vec::new();
        buf.push(MessageType::FormatChange.as_u8());
        bytes::push_u32(&mut buf, self.new_format);
        assert(buf@ == tagged(MessageType::FormatChange, bytes::le32(self.new_format)));
        Ok(buf)
    }
}

/// A message from the server.
#[derive(Debug, Clone)]
pub enum AudinPdu {
    /// The version of the protocol.
    Version(VersionPdu),
    /// The server's PCM formats.
    SoundFormats(Vec<AudioFormat>),
    /// Begin to capture.
    Open {
        /// The format to capture in.
        format: AudioFormat,
        /// How many frames a packet has.
        frames_per_packet: u32,
    },
    /// Another format is to be used.
    FormatChange {
        /// The number of the format.
        new_format: u32,
    },
    /// Samples, which only the client sends.
    Data(Vec<u8>),
}

/// The view of `AudinPdu`.
pub enum AudinPduView {
    /// The version of the protocol.
    Version(u32),
    /// The server's PCM formats.
    SoundFormats(Seq<AudioFormat>),
    /// Begin to capture.
    Open {
        /// The format to capture in.
        format: AudioFormat,
        /// How many frames a packet has.
        frames_per_packet: u32,
    },
    /// Another format is to be used.
    FormatChange {
        /// The number of the format.
        new_format: u32,
    },
    /// Samples, which only the client sends.
    Data(Seq<u8>),
}

impl View for AudinPdu {
    type V = AudinPduView;

    open spec fn view(&self) -> AudinPduView {
        match *self {
            AudinPdu::Version(p) => AudinPduView::Version(p@),
            AudinPdu::SoundFormats(f) => AudinPduView::SoundFormats(f@),
            AudinPdu::Open { format, frames_per_packet } => {
                AudinPduView::Open { format, frames_per_packet }
            },
            AudinPdu::FormatChange { new_format } => AudinPduView::FormatChange { new_format },
            AudinPdu::Data(d) => AudinPduView::Data(d@),
        }
    }
}

/// What `AudinPdu::decode` reads.
pub open spec fn decode_audin(data: Seq<u8>) -> Result<AudinPduView, AudinErrorView> {
    let p = data.skip(1);
    if data.len() == 0 {
        Err(AudinErrorView::EmptyPayload)
    } else {
        match MessageType::of_number(data[0]) {
            None => Err(AudinErrorView::InvalidMessageType(data[0])),
            Some(MessageType::Version) => match decode_version(p) {
                Ok(v) => Ok(AudinPduView::Version(v)),
                Err(e) => Err(e),
            },
            Some(MessageType::SoundFormats) => match decode_sound_formats(p) {
                Ok(f) => Ok(AudinPduView::SoundFormats(f)),
                Err(e) => Err(e),
            },
            Some(MessageType::Open) => match decode_open(p) {
                Ok(o) => Ok(
                    AudinPduView::Open {
                        format: o.format,
                        frames_per_packet: o.frames_per_packet,
                    },
                ),
                Err(e) => Err(e),
            },
            Some(MessageType::FormatChange) => match decode_format_change(p) {
                Ok(n) => Ok(AudinPduView::FormatChange { new_format: n }),
                Err(e) => Err(e),
            },
            Some(MessageType::Data) => Ok(AudinPduView::Data(p)),
            Some(t) => Err(AudinErrorView::UnexpectedPdu(t)),
        }
    }
}

impl AudinPdu {
    /// Reads a message.
    pub fn decode(data: &[u8]) -> (r: Result<AudinPdu, AudinError>)
        ensures
            views::result_view(r) == decode_audin(data@),
    {
        if data.len() == 0 {
            return Err(AudinError::EmptyPayload);
        }
        let msg_type = match MessageType::try_from(data[0]) {
            Ok(t) => t,
            Err(e) => {
                return Err(e);
            },
        };
        let payload = &data[1..data.len()];
        assert(payload@ == data@.skip(1));
        match msg_type {
            MessageType::Version => match VersionPdu::decode(payload) {
                Ok(p) => Ok(AudinPdu::Version(p)),
                Err(e) => Err(e),
            },
            MessageType::SoundFormats => match ServerSoundFormats::decode(payload) {
                Ok(f) => Ok(AudinPdu::SoundFormats(f.formats)),
                Err(e) => Err(e),
            },
            MessageType::Open => match OpenPdu::decode(payload) {
                Ok(o) => Ok(
                    AudinPdu::Open { format: o.format, frames_per_packet: o.frames_per_packet },
                ),
                Err(e) => Err(e),
            },
            MessageType::FormatChange => match FormatChange::decode(payload) {
                Ok(c) => Ok(AudinPdu::FormatChange { new_format: c.new_format }),
                Err(e) => Err(e),
            },
            MessageType::Data => Ok(AudinPdu::Data(bytes::copy_bytes(payload))),
            MessageType::OpenReply => Err(AudinError::UnexpectedPdu(msg_type)),
            MessageType::DataIncoming => Err(AudinError::UnexpectedPdu(msg_type)),
        }
    }
}

/// A message of the channel, ready to be sent.
#[derive(Debug, Clone)]
pub struct AudinDvcMessage {
    /// The bytes of the message.
    pub data: Vec<u8>,
}

impl View for AudinDvcMessage {
    type V = Seq<u8>;

    open spec fn view(&self) -> Seq<u8> {
        self.data@
    }
}

/// A message from its bytes.
fn message_of(r: Result<Vec<u8>, AudinError>) -> (m: Result<AudinDvcMessage, AudinError>)
    ensures
        m is Ok <==> r is Ok,
        m is Ok ==> m->Ok_0@ == r->Ok_0@,
        m is Err ==> m->Err_0 == r->Err_0,
{
    match r {
        Ok(data) => Ok(AudinDvcMessage { data }),
        Err(e) => Err(e),
    }
}

impl AudinDvcMessage {
    /// A message with the given bytes.
    pub fn new(data: Vec<u8>) -> (m: AudinDvcMessage)
        ensures
            m@ == data@,
    {
        AudinDvcMessage { data }
    }

    /// What the message is called.
    pub fn name(&self) -> (s: &'static str)
        ensures
            s@ == "AudinDvcMessage"@,
    {
        "AudinDvcMessage"
    }

    /// How many bytes it has.
    pub fn size(&self) -> (n: usize)
        ensures
            n == self@.len(),
    {
        self.data.len()
    }

    /// The message with the version.
    pub fn from_version(pdu: &VersionPdu) -> (m: Result<AudinDvcMessage, AudinError>)
        ensures
            m is Ok,
            m->Ok_0@ == tagged(MessageType::Version, bytes::le32(pdu.version)),
    {
        message_of(pdu.encode())
    }

    /// The message with the client's formats.
    pub fn from_sound_formats(pdu: &ClientSoundFormats) -> (m: Result<AudinDvcMessage, AudinError>)
        requires
            rates_fit(pdu.formats@),
        ensures
            m is Ok,
            m->Ok_0@ == tagged(MessageType::SoundFormats, formats_payload(pdu.formats@)),
    {
        message_of(pdu.encode())
    }

    /// The answer to the request to capture.
    pub fn from_open_reply(pdu: &OpenReply) -> (m: Result<AudinDvcMessage, AudinError>)
        ensures
            m is Ok,
            m->Ok_0@ == tagged(MessageType::OpenReply, bytes::le32(pdu.result)),
    {
        message_of(pdu.encode())
    }

    /// The announcement of samples.
    pub fn from_data_incoming(pdu: &DataIncoming) -> (m: Result<AudinDvcMessage, AudinError>)
        ensures
            m is Ok,
            m->Ok_0@ == tagged(MessageType::DataIncoming, Seq::empty()),
    {
        message_of(pdu.encode())
    }

    /// The message with samples.
    pub fn from_data(pdu: &DataPdu) -> (m: Result<AudinDvcMessage, AudinError>)
        ensures
            m is Ok,
            m->Ok_0@ == tagged(MessageType::Data, pdu.data@),
    {
        message_of(pdu.encode())
    }

    /// The answer to a change of format.
    pub fn from_format_change(pdu: &FormatChange) -> (m: Result<AudinDvcMessage, AudinError>)
        ensures
            m is Ok,
            m->Ok_0@ == tagged(MessageType::FormatChange, bytes::le32(pdu.new_format)),
    {
        message_of(pdu.encode())
    }
}

/// A message type and its number determine each other.
pub proof fn law_message_type_numbers(t: MessageType, n: u8)
    ensures
        MessageType::of_number(t.number()) == Some(t),
        MessageType::of_number(n) == Some(t) ==> t.number() == n,
        MessageType::of_number(n) is None <==> n == 0 || n > 0x07,
{
}

/// A version is read back.
pub proof fn law_version_round_trip(version: u32)
    ensures
        decode_audin(tagged(MessageType::Version, bytes::le32(version))) == Ok::<
            AudinPduView,
            AudinErrorView,
        >(AudinPduView::Version(version)),
{
    let p = bytes::le32(version);
    assert(tagged(MessageType::Version, p).skip(1) == p);
    assert(p.subrange(0, 4) == p);
    bytes::lemma_le32_field(p, 0, version);
}

/// A change of format is read back.
pub proof fn law_format_change_round_trip(new_format: u32)
    ensures
        decode_audin(tagged(MessageType::FormatChange, bytes::le32(new_format))) == Ok::<
            AudinPduView,
            AudinErrorView,
        >(AudinPduView::FormatChange { new_format }),
{
    let p = bytes::le32(new_format);
    assert(tagged(MessageType::FormatChange, p).skip(1) == p);
    assert(p.subrange(0, 4) == p);
    bytes::lemma_le32_field(p, 0, new_format);
}

/// Samples are read back.
pub proof fn law_data_round_trip(data: Seq<u8>)
    ensures
        decode_audin(tagged(MessageType::Data, data)) == Ok::<AudinPduView, AudinErrorView>(
            AudinPduView::Data(data),
        ),
{
    assert(tagged(MessageType::Data, data).skip(1) == data);
}

/// The fields of a format, wherever its 18 bytes stand.
proof fn lemma_format_fields(s: Seq<u8>, at: int, f: AudioFormat)
    requires
        0 <= at,
        at + 18 <= s.len(),
        s.subrange(at, at + 18) == format_bytes(f),
    ensures
        bytes::le16_at(s, at) == 1,
        bytes::le16_at(s, at + 16) == 0,
        format_at(s, at) == f,
{
    let b = format_bytes(f);
    assert(s.subrange(at, at + 2) == b.subrange(0, 2));
    assert(b.subrange(0, 2) == bytes::le16(1));
    bytes::lemma_le16_field(s, at, 1);
    assert(s.subrange(at + 2, at + 4) == b.subrange(2, 4));
    assert(b.subrange(2, 4) == bytes::le16(f.channels as u16));
    bytes::lemma_le16_field(s, at + 2, f.channels as u16);
    assert(s.subrange(at + 4, at + 8) == b.subrange(4, 8));
    assert(b.subrange(4, 8) == bytes::le32(f.sample_rate));
    bytes::lemma_le32_field(s, at + 4, f.sample_rate);
    assert(s.subrange(at + 14, at + 16) == b.subrange(14, 16));
    assert(b.subrange(14, 16) == bytes::le16(f.bits_per_sample as u16));
    bytes::lemma_le16_field(s, at + 14, f.bits_per_sample as u16);
    assert(s.subrange(at + 16, at + 18) == b.subrange(16, 18));
    assert(b.subrange(16, 18) == bytes::le16(0));
    bytes::lemma_le16_field(s, at + 16, 0);
}

/// Format `i` of a list stands 18 bytes after the one before.
proof fn lemma_format_slots(formats: Seq<AudioFormat>, i: int)
    ensures
        formats_bytes(formats).len() == 18 * formats.len(),
        0 <= i < formats.len() ==> formats_bytes(formats).subrange(18 * i, 18 * i + 18)
            == format_bytes(formats[i]),
    decreases formats.len(),
{
    if formats.len() > 0 {
        let front = formats.drop_last();
        let all = formats_bytes(formats);
        lemma_format_slots(front, i);
        if 0 <= i < formats.len() {
            if i < front.len() {
                assert(all.subrange(18 * i, 18 * i + 18) == formats_bytes(front).subrange(
                    18 * i,
                    18 * i + 18,
                ));
                assert(front[i] == formats[i]);
            } else {
                assert(all.subrange(18 * i, 18 * i + 18) == format_bytes(formats.last()));
            }
        }
    }
}

/// The formats from place `i` on are read back.
proof fn lemma_formats_from(p: Seq<u8>, formats: Seq<AudioFormat>, i: int)
    requires
        0 <= i <= formats.len(),
        p == formats_payload(formats),
    ensures
        pcm_formats(p, 8 + 18 * i, formats.len() - i) == formats.skip(i),
    decreases formats.len() - i,
{
    lemma_format_slots(formats, i);
    if i < formats.len() {
        lemma_formats_from(p, formats, i + 1);
        assert(p.subrange(8 + 18 * i, 8 + 18 * i + 18) == formats_bytes(formats).subrange(
            18 * i,
            18 * i + 18,
        ));
        lemma_format_fields(p, 8 + 18 * i, formats[i]);
        assert(formats.skip(i) == seq![formats[i]] + formats.skip(i + 1));
    } else {
        assert(formats.skip(i) == Seq::<AudioFormat>::empty());
    }
}

/// The number of formats is read back.
proof fn lemma_format_count(formats: Seq<AudioFormat>)
    requires
        formats.len() < 0x1_0000_0000,
    ensures
        formats_payload(formats).len() >= 8,
        bytes::le32_at(formats_payload(formats), 0) == formats.len(),
{
    let size = ((9 + 18 * formats.len()) % 0x1_0000_0000) as u32;
    lemma_payload_parts(formats, size);
    bytes::lemma_count_head(formats.len(), bytes::le32(size) + formats_bytes(formats));
}

/// The payload is the number of formats in front of the rest.
proof fn lemma_payload_parts(formats: Seq<AudioFormat>, size: u32)
    requires
        size == ((9 + 18 * formats.len()) % 0x1_0000_0000) as u32,
    ensures
        formats_payload(formats) == bytes::le32((formats.len() as int % 0x1_0000_0000) as u32) + (
        bytes::le32(size) + formats_bytes(formats)),
{
    let count = bytes::le32((formats.len() as int % 0x1_0000_0000) as u32);
    assert(count + bytes::le32(size) + formats_bytes(formats) =~= count + (bytes::le32(size)
        + formats_bytes(formats)));
}

/// Formats are read back from their payload.
proof fn lemma_formats_payload(formats: Seq<AudioFormat>)
    requires
        formats.len() < 0x1_0000_0000,
    ensures
        decode_sound_formats(formats_payload(formats)) == Ok::<Seq<AudioFormat>, AudinErrorView>(
            formats,
        ),
{
    lemma_format_count(formats);
    lemma_formats_from(formats_payload(formats), formats, 0);
    assert(formats.skip(0) == formats);
}

/// The payload of a message is read back.
proof fn lemma_tagged(t: MessageType, p: Seq<u8>)
    ensures
        tagged(t, p).len() == 1 + p.len(),
        tagged(t, p)[0] == t.number(),
        tagged(t, p).skip(1) == p,
{
    assert(tagged(t, p).skip(1) =~= p);
}

/// Formats are read back as they were written.
pub proof fn law_sound_formats_round_trip(formats: Seq<AudioFormat>)
    requires
        formats.len() < 0x1_0000_0000,
    ensures
        decode_audin(tagged(MessageType::SoundFormats, formats_payload(formats))) == Ok::<
            AudinPduView,
            AudinErrorView,
        >(AudinPduView::SoundFormats(formats)),
{
    let p = formats_payload(formats);
    lemma_formats_payload(formats);
    lemma_tagged(MessageType::SoundFormats, p);
}

} // verus!
