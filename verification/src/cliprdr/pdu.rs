//! The messages of the clipboard channel, after MS-RDPECLIP.
//!
//! Each message has a mathematical counterpart (its view). `decode` is stated
//! as a function from bytes to that counterpart or to an error, `encode` as a
//! function from the counterpart to bytes; the laws at the end of the file say
//! that decoding undoes encoding.
use vstd::prelude::*;

use crate::bytes;
use crate::text;
use crate::utf16;
use crate::views;

pub mod fd_flags;
pub mod file_attributes;
pub mod laws;
pub mod wire;

verus! {

/// Why a clipboard message was not understood.
#[derive(Debug)]
pub enum CliprdrError {
    /// Unknown or unsupported message type.
    InvalidMessageType(u16),
    /// Fewer bytes than the message needs.
    PayloadTooShort {
        /// What was being read.
        context: &'static str,
        /// How many bytes it needs.
        expected: usize,
        /// How many bytes there were.
        actual: usize,
    },
    /// Flags that the message cannot have.
    InvalidFlags(u16),
    /// A format list that could not be read.
    FormatListParse(String),
}

/// The view of `CliprdrError`.
pub enum CliprdrErrorView {
    /// Unknown or unsupported message type.
    InvalidMessageType(u16),
    /// Fewer bytes than the message needs.
    PayloadTooShort {
        /// What was being read.
        context: Seq<char>,
        /// How many bytes it needs.
        expected: int,
        /// How many bytes there were.
        actual: int,
    },
    /// Flags that the message cannot have.
    InvalidFlags(u16),
    /// A format list that could not be read.
    FormatListParse(Seq<char>),
}

impl View for CliprdrError {
    type V = CliprdrErrorView;

    open spec fn view(&self) -> CliprdrErrorView {
        match *self {
            CliprdrError::InvalidMessageType(n) => CliprdrErrorView::InvalidMessageType(n),
            CliprdrError::PayloadTooShort { context, expected, actual } => {
                CliprdrErrorView::PayloadTooShort {
                    context: context@,
                    expected: expected as int,
                    actual: actual as int,
                }
            },
            CliprdrError::InvalidFlags(n) => CliprdrErrorView::InvalidFlags(n),
            CliprdrError::FormatListParse(s) => CliprdrErrorView::FormatListParse(s@),
        }
    }
}

impl CliprdrErrorView {
    /// The text of the error.
    pub open spec fn text(self) -> Seq<char> {
        match self {
            CliprdrErrorView::InvalidMessageType(n) => "invalid CLIPRDR message type: 0x"@
                + text::hexadecimal(n as nat),
            CliprdrErrorView::PayloadTooShort { context, expected, actual } => {
                "CLIPRDR payload too short for "@ + context + ": expected "@ + text::decimal(
                    expected as nat,
                ) + ", got "@ + text::decimal(actual as nat)
            },
            CliprdrErrorView::InvalidFlags(n) => "invalid CLIPRDR PDU flags: 0x"@
                + text::hexadecimal(n as nat),
            CliprdrErrorView::FormatListParse(s) => "failed to parse format list: "@ + s,
        }
    }
}

impl CliprdrError {
    /// The text of the error.
    pub fn message(&self) -> (s: String)
        ensures
            s@ == self@.text(),
    {
        let mut s = String::new();
        match self {
            CliprdrError::InvalidMessageType(n) => {
                s.push_str("invalid CLIPRDR message type: 0x");
                text::push_hexadecimal(&mut s, *n as u64);
            },
            CliprdrError::PayloadTooShort { context, expected, actual } => {
                s.push_str("CLIPRDR payload too short for ");
                s.push_str(context);
                s.push_str(": expected ");
                text::push_decimal(&mut s, *expected as u64);
                s.push_str(", got ");
                text::push_decimal(&mut s, *actual as u64);
            },
            CliprdrError::InvalidFlags(n) => {
                s.push_str("invalid CLIPRDR PDU flags: 0x");
                text::push_hexadecimal(&mut s, *n as u64);
            },
            CliprdrError::FormatListParse(t) => {
                s.push_str("failed to parse format list: ");
                s.push_str(t.as_str());
            },
        }
        s
    }
}

/// Number of bytes in a message header: type (2), flags (2), data length (4).
pub const CLIPRDR_HEADER_SIZE: usize = 8;

/// The types of clipboard messages.
#[derive(Debug, Clone, Copy, PartialEq, Eq, Structural)]
pub enum MessageType {
    /// The server's clipboard is ready.
    MonitorReady,
    /// Formats are on offer.
    FormatList,
    /// Answer to a format list.
    FormatListResponse,
    /// Data in one format is asked for.
    FormatDataRequest,
    /// Answer to a data request.
    FormatDataResponse,
    /// Directory for temporary files.
    TempDirectory,
    /// Capabilities.
    ClipCaps,
    /// The size or a part of a file is asked for.
    FileContentsRequest,
    /// Answer to a file request.
    FileContentsResponse,
    /// The clipboard data is to be kept.
    LockClipData,
    /// The clipboard data need not be kept any more.
    UnlockClipData,
}

impl MessageType {
    /// The number of the type on the wire.
    pub open spec fn number(self) -> u16 {
        match self {
            MessageType::MonitorReady => 0x0001,
            MessageType::FormatList => 0x0002,
            MessageType::FormatListResponse => 0x0003,
            MessageType::FormatDataRequest => 0x0004,
            MessageType::FormatDataResponse => 0x0005,
            MessageType::TempDirectory => 0x0006,
            MessageType::ClipCaps => 0x0007,
            MessageType::FileContentsRequest => 0x0008,
            MessageType::FileContentsResponse => 0x0009,
            MessageType::LockClipData => 0x000A,
            MessageType::UnlockClipData => 0x000B,
        }
    }

    /// The type with the given number.
    pub open spec fn of_number(value: u16) -> Option<MessageType> {
        match value {
            0x0001 => Some(MessageType::MonitorReady),
            0x0002 => Some(MessageType::FormatList),
            0x0003 => Some(MessageType::FormatListResponse),
            0x0004 => Some(MessageType::FormatDataRequest),
            0x0005 => Some(MessageType::FormatDataResponse),
            0x0006 => Some(MessageType::TempDirectory),
            0x0007 => Some(MessageType::ClipCaps),
            0x0008 => Some(MessageType::FileContentsRequest),
            0x0009 => Some(MessageType::FileContentsResponse),
            0x000A => Some(MessageType::LockClipData),
            0x000B => Some(MessageType::UnlockClipData),
            _ => None,
        }
    }

    /// The number of the type on the wire.
    pub fn as_u16(self) -> (n: u16)
        ensures
            n == self.number(),
    {
        match self {
            MessageType::MonitorReady => 0x0001,
            MessageType::FormatList => 0x0002,
            MessageType::FormatListResponse => 0x0003,
            MessageType::FormatDataRequest => 0x0004,
            MessageType::FormatDataResponse => 0x0005,
            MessageType::TempDirectory => 0x0006,
            MessageType::ClipCaps => 0x0007,
            MessageType::FileContentsRequest => 0x0008,
            MessageType::FileContentsResponse => 0x0009,
            MessageType::LockClipData => 0x000A,
            MessageType::UnlockClipData => 0x000B,
        }
    }
}

impl TryFrom<u16> for MessageType {
    type Error = CliprdrError;

    fn try_from(value: u16) -> (r: Result<MessageType, CliprdrError>) {
        match value {
            0x0001 => Ok(MessageType::MonitorReady),
            0x0002 => Ok(MessageType::FormatList),
            0x0003 => Ok(MessageType::FormatListResponse),
            0x0004 => Ok(MessageType::FormatDataRequest),
            0x0005 => Ok(MessageType::FormatDataResponse),
            0x0006 => Ok(MessageType::TempDirectory),
            0x0007 => Ok(MessageType::ClipCaps),
            0x0008 => Ok(MessageType::FileContentsRequest),
            0x0009 => Ok(MessageType::FileContentsResponse),
            0x000A => Ok(MessageType::LockClipData),
            0x000B => Ok(MessageType::UnlockClipData),
            _ => Err(CliprdrError::InvalidMessageType(value)),
        }
    }
}

impl vstd::std_specs::convert::TryFromSpecImpl<u16> for MessageType {
    open spec fn obeys_try_from_spec() -> bool {
        true
    }

    open spec fn try_from_spec(value: u16) -> Result<MessageType, CliprdrError> {
        match MessageType::of_number(value) {
            Some(t) => Ok(t),
            None => Err(CliprdrError::InvalidMessageType(value)),
        }
    }
}

/// The flags of a message header.
#[derive(Debug, Clone, Copy, PartialEq, Eq, Structural)]
pub struct MessageFlags(pub u16);

impl MessageFlags {
    /// The request was completed.
    pub const RESPONSE_OK: u16 = 0x0001;

    /// The request failed.
    pub const RESPONSE_FAIL: u16 = 0x0002;

    /// Format names are short and in ASCII.
    pub const ASCII_NAMES: u16 = 0x0004;

    /// No flags.
    pub fn empty() -> (f: MessageFlags)
        ensures
            f.0 == 0,
    {
        MessageFlags(0)
    }

    /// The flags with the given bits.
    pub fn from_bits(bits: u16) -> (f: MessageFlags)
        ensures
            f.0 == bits,
    {
        MessageFlags(bits)
    }

    /// The bits of the flags.
    pub fn bits(&self) -> (bits: u16)
        ensures
            bits == self.0,
    {
        self.0
    }

    /// The request was completed.
    pub open spec fn ok(self) -> bool {
        self.0 & 0x0001 != 0
    }

    /// Format names are short and in ASCII.
    pub open spec fn ascii_names(self) -> bool {
        self.0 & 0x0004 != 0
    }

    /// Tests whether the request was completed.
    pub fn is_ok(&self) -> (b: bool)
        ensures
            b == self.ok(),
    {
        self.0 & MessageFlags::RESPONSE_OK != 0
    }

    /// Tests whether the request failed.
    pub fn is_fail(&self) -> (b: bool)
        ensures
            b == (self.0 & 0x0002 != 0),
    {
        self.0 & MessageFlags::RESPONSE_FAIL != 0
    }

    /// Tests whether format names are short.
    pub fn has_ascii_names(&self) -> (b: bool)
        ensures
            b == self.ascii_names(),
    {
        self.0 & MessageFlags::ASCII_NAMES != 0
    }
}

/// What a file request asks for.
#[derive(Debug, Clone, Copy, PartialEq, Eq, Structural)]
pub enum FileContentsFlags {
    /// The size of the file, as eight bytes.
    Size,
    /// A part of the file.
    Range,
}

impl FileContentsFlags {
    /// The number on the wire.
    pub open spec fn number(self) -> u32 {
        match self {
            FileContentsFlags::Size => 0x0001,
            FileContentsFlags::Range => 0x0002,
        }
    }

    /// The number on the wire.
    pub fn as_u32(self) -> (n: u32)
        ensures
            n == self.number(),
    {
        match self {
            FileContentsFlags::Size => 0x0001,
            FileContentsFlags::Range => 0x0002,
        }
    }
}

/// Number of bytes in a file descriptor.
pub const FILEDESCRIPTORW_SIZE: usize = 592;

/// Seconds between 1601-01-01 and 1970-01-01.
const UNIX_EPOCH_OFFSET: u64 = 11_644_473_600;

/// FILETIME units (100 ns) in a second.
const FILETIME_UNITS_PER_SECOND: u64 = 10_000_000;

/// The FILETIME of a Unix time: 100 ns intervals since 1601, no more than the
/// largest 64-bit integer.
pub open spec fn filetime_of(unix_timestamp: u64) -> u64 {
    if (unix_timestamp + 11_644_473_600) * 10_000_000 > u64::MAX {
        u64::MAX
    } else {
        ((unix_timestamp + 11_644_473_600) * 10_000_000) as u64
    }
}

/// The FILETIME of a Unix time, saturating at the largest 64-bit integer.
pub fn unix_to_filetime(unix_timestamp: u64) -> (t: u64)
    ensures
        t == filetime_of(unix_timestamp),
{
    let seconds: u64 = unix_timestamp.saturating_add(UNIX_EPOCH_OFFSET);
    match seconds.checked_mul(FILETIME_UNITS_PER_SECOND) {
        Some(t) => t,
        None => u64::MAX,
    }
}

/// The standard clipboard formats, as Windows numbers them.
#[derive(Debug, Clone, Copy, PartialEq, Eq, Structural)]
pub enum StandardFormat {
    /// ANSI text.
    Text,
    /// Bitmap.
    Bitmap,
    /// Metafile picture.
    MetafilePict,
    /// Symbolic link.
    Sylk,
    /// Data interchange format.
    Dif,
    /// TIFF image.
    Tiff,
    /// OEM text.
    OemText,
    /// Device-independent bitmap.
    Dib,
    /// Colour palette.
    Palette,
    /// Pen data.
    PenData,
    /// RIFF audio.
    Riff,
    /// Wave audio.
    Wave,
    /// Unicode text.
    UnicodeText,
    /// Enhanced metafile.
    EnhMetafile,
    /// File list.
    Hdrop,
    /// Locale identifier.
    Locale,
    /// Device-independent bitmap, version 5.
    DibV5,
}

impl StandardFormat {
    /// The number of the format.
    pub open spec fn number(self) -> u32 {
        match self {
            StandardFormat::Text => 1,
            StandardFormat::Bitmap => 2,
            StandardFormat::MetafilePict => 3,
            StandardFormat::Sylk => 4,
            StandardFormat::Dif => 5,
            StandardFormat::Tiff => 6,
            StandardFormat::OemText => 7,
            StandardFormat::Dib => 8,
            StandardFormat::Palette => 9,
            StandardFormat::PenData => 10,
            StandardFormat::Riff => 11,
            StandardFormat::Wave => 12,
            StandardFormat::UnicodeText => 13,
            StandardFormat::EnhMetafile => 14,
            StandardFormat::Hdrop => 15,
            StandardFormat::Locale => 16,
            StandardFormat::DibV5 => 17,
        }
    }

    /// The format with the given number.
    pub open spec fn of_number(value: u32) -> Option<StandardFormat> {
        match value {
            1 => Some(StandardFormat::Text),
            2 => Some(StandardFormat::Bitmap),
            3 => Some(StandardFormat::MetafilePict),
            4 => Some(StandardFormat::Sylk),
            5 => Some(StandardFormat::Dif),
            6 => Some(StandardFormat::Tiff),
            7 => Some(StandardFormat::OemText),
            8 => Some(StandardFormat::Dib),
            9 => Some(StandardFormat::Palette),
            10 => Some(StandardFormat::PenData),
            11 => Some(StandardFormat::Riff),
            12 => Some(StandardFormat::Wave),
            13 => Some(StandardFormat::UnicodeText),
            14 => Some(StandardFormat::EnhMetafile),
            15 => Some(StandardFormat::Hdrop),
            16 => Some(StandardFormat::Locale),
            17 => Some(StandardFormat::DibV5),
            _ => None,
        }
    }

    /// The number of the format.
    pub fn as_u32(self) -> (n: u32)
        ensures
            n == self.number(),
    {
        match self {
            StandardFormat::Text => 1,
            StandardFormat::Bitmap => 2,
            StandardFormat::MetafilePict => 3,
            StandardFormat::Sylk => 4,
            StandardFormat::Dif => 5,
            StandardFormat::Tiff => 6,
            StandardFormat::OemText => 7,
            StandardFormat::Dib => 8,
            StandardFormat::Palette => 9,
            StandardFormat::PenData => 10,
            StandardFormat::Riff => 11,
            StandardFormat::Wave => 12,
            StandardFormat::UnicodeText => 13,
            StandardFormat::EnhMetafile => 14,
            StandardFormat::Hdrop => 15,
            StandardFormat::Locale => 16,
            StandardFormat::DibV5 => 17,
        }
    }
}

impl TryFrom<u32> for StandardFormat {
    type Error = ();

    fn try_from(value: u32) -> (r: Result<StandardFormat, ()>) {
        match value {
            1 => Ok(StandardFormat::Text),
            2 => Ok(StandardFormat::Bitmap),
            3 => Ok(StandardFormat::MetafilePict),
            4 => Ok(StandardFormat::Sylk),
            5 => Ok(StandardFormat::Dif),
            6 => Ok(StandardFormat::Tiff),
            7 => Ok(StandardFormat::OemText),
            8 => Ok(StandardFormat::Dib),
            9 => Ok(StandardFormat::Palette),
            10 => Ok(StandardFormat::PenData),
            11 => Ok(StandardFormat::Riff),
            12 => Ok(StandardFormat::Wave),
            13 => Ok(StandardFormat::UnicodeText),
            14 => Ok(StandardFormat::EnhMetafile),
            15 => Ok(StandardFormat::Hdrop),
            16 => Ok(StandardFormat::Locale),
            17 => Ok(StandardFormat::DibV5),
            _ => Err(()),
        }
    }
}

impl vstd::std_specs::convert::TryFromSpecImpl<u32> for StandardFormat {
    open spec fn obeys_try_from_spec() -> bool {
        true
    }

    open spec fn try_from_spec(value: u32) -> Result<StandardFormat, ()> {
        match StandardFormat::of_number(value) {
            Some(f) => Ok(f),
            None => Err(()),
        }
    }
}

/// A clipboard format: a number and, for registered formats, a name.
#[derive(Debug, PartialEq, Eq)]
pub struct ClipboardFormat {
    /// The number of the format.
    pub id: u32,
    /// The name of a registered format, empty for a standard one.
    pub name: String,
}

/// The view of `ClipboardFormat`.
pub struct FormatView {
    /// The number of the format.
    pub id: u32,
    /// The name of a registered format, empty for a standard one.
    pub name: Seq<char>,
}

impl View for ClipboardFormat {
    type V = FormatView;

    open spec fn view(&self) -> FormatView {
        FormatView { id: self.id, name: self.name@ }
    }
}

impl Clone for ClipboardFormat {
    fn clone(&self) -> (f: ClipboardFormat)
        ensures
            f@ == self@,
    {
        ClipboardFormat { id: self.id, name: self.name.clone() }
    }
}

impl FormatView {
    /// Text in ANSI or Unicode.
    pub open spec fn text(self) -> bool {
        self.id == StandardFormat::Text.number() || self.id == StandardFormat::UnicodeText.number()
    }

    /// A list of files.
    pub open spec fn file_list(self) -> bool {
        self.id == StandardFormat::Hdrop.number()
    }
}

impl ClipboardFormat {
    /// A format with the given number and name.
    pub fn new(id: u32, name: &str) -> (f: ClipboardFormat)
        ensures
            f@ == (FormatView { id, name: name@ }),
    {
        ClipboardFormat { id, name: name.to_owned() }
    }

    /// A standard format, which has no name.
    pub fn standard(format: StandardFormat) -> (f: ClipboardFormat)
        ensures
            f@ == (FormatView { id: format.number(), name: Seq::empty() }),
    {
        ClipboardFormat { id: format.as_u32(), name: String::new() }
    }

    /// Tests for a text format.
    pub fn is_text(&self) -> (b: bool)
        ensures
            b == self@.text(),
    {
        self.id == StandardFormat::Text.as_u32() || self.id == StandardFormat::UnicodeText.as_u32()
    }

    /// Tests for a file list format.
    pub fn is_file_list(&self) -> (b: bool)
        ensures
            b == self@.file_list(),
    {
        self.id == StandardFormat::Hdrop.as_u32()
    }
}

/// A copy of a list of formats.
pub fn copy_formats(formats: &Vec<ClipboardFormat>) -> (out: Vec<ClipboardFormat>)
    ensures
        views::seq_view(out@) == views::seq_view(formats@),
{
    let mut out: Vec<ClipboardFormat> = Vec::new();
    let mut i: usize = 0;
    while i < formats.len()
        invariant
            i <= formats@.len(),
            views::seq_view(out@) == views::seq_view(formats@).take(i as int),
        decreases formats@.len() - i,
    {
        let f = formats[i].clone();
        proof {
            views::lemma_seq_view_push(out@, f);
        }
        out.push(f);
        i = i + 1;
        assert(views::seq_view(out@) == views::seq_view(formats@).take(i as int));
    }
    assert(views::seq_view(out@) == views::seq_view(formats@));
    out
}

/// The general capability set.
const CB_CAPSTYPE_GENERAL: u16 = 0x0001;

/// The version of the general capability set.
const CB_CAPS_VERSION_2: u32 = 0x0000_0002;

/// The flags of the general capability set.
#[derive(Debug, Clone, Copy, PartialEq, Eq, Structural)]
pub struct GeneralCapabilityFlags(pub u32);

impl GeneralCapabilityFlags {
    /// Long format names.
    pub const USE_LONG_FORMAT_NAMES: u32 = 0x0000_0002;

    /// File contents through streams.
    pub const STREAM_FILECLIP_ENABLED: u32 = 0x0000_0004;

    /// No paths in file operations.
    pub const FILECLIP_NO_FILE_PATHS: u32 = 0x0000_0008;

    /// Locking of clipboard data.
    pub const CAN_LOCK_CLIPDATA: u32 = 0x0000_0010;

    /// Files above four gigabytes.
    pub const HUGE_FILE_SUPPORT_ENABLED: u32 = 0x0000_0020;

    /// Long format names are supported.
    pub open spec fn long_names(self) -> bool {
        self.0 & 0x0000_0002 != 0
    }

    /// File contents through streams are supported.
    pub open spec fn file_streams(self) -> bool {
        self.0 & 0x0000_0004 != 0
    }

    /// No flags.
    pub fn empty() -> (f: GeneralCapabilityFlags)
        ensures
            f.0 == 0,
    {
        GeneralCapabilityFlags(0)
    }

    /// The flags with the given bits.
    pub fn from_bits(bits: u32) -> (f: GeneralCapabilityFlags)
        ensures
            f.0 == bits,
    {
        GeneralCapabilityFlags(bits)
    }

    /// The bits of the flags.
    pub fn bits(&self) -> (bits: u32)
        ensures
            bits == self.0,
    {
        self.0
    }

    /// Tests whether long format names are supported.
    pub fn use_long_format_names(&self) -> (b: bool)
        ensures
            b == self.long_names(),
    {
        self.0 & GeneralCapabilityFlags::USE_LONG_FORMAT_NAMES != 0
    }

    /// Tests whether file contents through streams are supported.
    pub fn stream_fileclip_enabled(&self) -> (b: bool)
        ensures
            b == self.file_streams(),
    {
        self.0 & GeneralCapabilityFlags::STREAM_FILECLIP_ENABLED != 0
    }

    /// The flags of both.
    pub fn union(self, other: GeneralCapabilityFlags) -> (f: GeneralCapabilityFlags)
        ensures
            f.0 == self.0 | other.0,
    {
        GeneralCapabilityFlags(self.0 | other.0)
    }
}

/// A message on the wire: the header, then the payload. The length field holds
/// the lower 32 bits of the payload's length.
pub open spec fn framed(kind: MessageType, flags: u16, payload: Seq<u8>) -> Seq<u8> {
    bytes::le16(kind.number()) + bytes::le16(flags) + bytes::le32(
        (payload.len() as int % 0x1_0000_0000) as u32,
    ) + payload
}

/// Writes a message: the header, then the payload.
pub fn encode_pdu(msg_type: MessageType, flags: MessageFlags, payload: &[u8]) -> (buf: Vec<u8>)
    ensures
        buf@ == framed(msg_type, flags.0, payload@),
{
    let mut buf: Vec<u8> = Vec::new();
    bytes::push_u16(&mut buf, msg_type.as_u16());
    bytes::push_u16(&mut buf, flags.bits());
    bytes::push_u32(&mut buf, bytes::length_u32(payload.len()));
    bytes::push_bytes(&mut buf, payload);
    assert(buf@ == framed(msg_type, flags.0, payload@));
    buf
}

/// Capabilities: the flags of the general capability set.
#[derive(Debug, Clone, Copy)]
pub struct ClipCapsPdu {
    /// The flags of the general capability set.
    pub general_flags: GeneralCapabilityFlags,
}

/// The flags that `left` capability sets starting at `at` leave, where `flags`
/// held before them: those of the last general set that lies whole within `p`.
/// Reading stops where no set header fits any more.
pub open spec fn capability_flags(p: Seq<u8>, at: int, left: int, flags: u32) -> u32
    decreases left,
{
    if left <= 0 || at + 4 > p.len() {
        flags
    } else {
        let kind = bytes::le16_at(p, at);
        let len = bytes::le16_at(p, at + 2);
        if kind == 0x0001 && len >= 12 && at + len <= p.len() {
            capability_flags(p, at + len, left - 1, bytes::le32_at(p, at + 8))
        } else {
            capability_flags(p, at + len, left - 1, flags)
        }
    }
}

/// What `ClipCapsPdu::decode` reads: the general flags.
pub open spec fn decode_caps(p: Seq<u8>) -> Result<u32, CliprdrErrorView> {
    if p.len() < 4 {
        Err(
            CliprdrErrorView::PayloadTooShort {
                context: "ClipCapsPdu"@,
                expected: 4,
                actual: p.len() as int,
            },
        )
    } else {
        Ok(capability_flags(p, 4, bytes::le16_at(p, 0) as int, 0))
    }
}

/// The payload with the given general flags: one general set of version 2.
pub open spec fn caps_payload(flags: u32) -> Seq<u8> {
    bytes::le16(1) + bytes::le16(0) + bytes::le16(0x0001) + bytes::le16(12) + bytes::le32(
        0x0000_0002,
    ) + bytes::le32(flags)
}

impl View for ClipCapsPdu {
    type V = u32;

    open spec fn view(&self) -> u32 {
        self.general_flags.0
    }
}

impl ClipCapsPdu {
    /// Capabilities with the given flags.
    pub fn new(flags: GeneralCapabilityFlags) -> (p: ClipCapsPdu)
        ensures
            p.general_flags == flags,
    {
        ClipCapsPdu { general_flags: flags }
    }

    /// The client's capabilities: long format names and file contents through
    /// streams.
    pub fn default_client() -> (p: ClipCapsPdu)
        ensures
            p.general_flags.0 == 0x0000_0006,
            p.general_flags.long_names(),
            p.general_flags.file_streams(),
    {
        proof {
            assert(0x0000_0002u32 | 0x0000_0004u32 == 0x0000_0006u32) by (bit_vector);
            assert(0x0000_0006u32 & 0x0000_0002u32 != 0 && 0x0000_0006u32 & 0x0000_0004u32 != 0)
                by (bit_vector);
        }
        ClipCapsPdu::new(
            GeneralCapabilityFlags::from_bits(GeneralCapabilityFlags::USE_LONG_FORMAT_NAMES).union(
                GeneralCapabilityFlags::from_bits(GeneralCapabilityFlags::STREAM_FILECLIP_ENABLED),
            ),
        )
    }

    /// Reads the payload of a capabilities message.
    pub fn decode(payload: &[u8]) -> (r: Result<ClipCapsPdu, CliprdrError>)
        ensures
            views::result_view(r) == decode_caps(payload@),
    {
        if payload.len() < 4 {
            return Err(
                CliprdrError::PayloadTooShort {
                    context: "ClipCapsPdu",
                    expected: 4,
                    actual: payload.len(),
                },
            );
        }
        let n: u16 = bytes::u16_at(payload, 0);
        let mut at: usize = 4;
        let mut flags: u32 = 0;
        let mut i: u16 = 0;
        while i < n
            invariant_except_break
                i <= n,
                at <= 4 + 65535 * i,
                capability_flags(payload@, at as int, n - i, flags) == capability_flags(
                    payload@,
                    4,
                    n as int,
                    0,
                ),
            ensures
                flags == capability_flags(payload@, 4, n as int, 0),
            decreases n - i,
        {
            if at > payload.len() || payload.len() - at < 4 {
                break;
            }
            let kind: u16 = bytes::u16_at(payload, at);
            let len: usize = bytes::u16_at(payload, at + 2) as usize;
            if kind == CB_CAPSTYPE_GENERAL && len >= 12 && len <= payload.len() - at {
                flags = bytes::u32_at(payload, at + 8);
            }
            at = at + len;
            i = i + 1;
        }
        Ok(ClipCapsPdu { general_flags: GeneralCapabilityFlags::from_bits(flags) })
    }

    /// Writes the payload.
    pub fn encode_payload(&self) -> (buf: Vec<u8>)
        ensures
            buf@ == caps_payload(self@),
    {
        let mut buf: Vec<u8> = Vec::new();
        bytes::push_u16(&mut buf, 1);
        bytes::push_u16(&mut buf, 0);
        bytes::push_u16(&mut buf, CB_CAPSTYPE_GENERAL);
        bytes::push_u16(&mut buf, 12);
        bytes::push_u32(&mut buf, CB_CAPS_VERSION_2);
        bytes::push_u32(&mut buf, self.general_flags.bits());
        assert(buf@ == caps_payload(self@));
        buf
    }

    /// Writes the message.
    pub fn encode(&self) -> (buf: Vec<u8>)
        ensures
            buf@ == framed(MessageType::ClipCaps, 0, caps_payload(self@)),
    {
        let payload = self.encode_payload();
        encode_pdu(MessageType::ClipCaps, MessageFlags::empty(), payload.as_slice())
    }
}

/// The server's clipboard is ready.
#[derive(Debug, Clone, Copy)]
pub struct MonitorReadyPdu;

impl MonitorReadyPdu {
    /// Reads the message, which has no payload: any is accepted.
    pub fn decode(_payload: &[u8]) -> (r: Result<MonitorReadyPdu, CliprdrError>)
        ensures
            r is Ok,
    {
        Ok(MonitorReadyPdu)
    }
}

/// Formats on offer.
#[derive(Debug, Clone)]
pub struct FormatListPdu {
    /// The formats, in the order of the sender.
    pub formats: Vec<ClipboardFormat>,
}

impl View for FormatListPdu {
    type V = Seq<FormatView>;

    open spec fn view(&self) -> Seq<FormatView> {
        views::seq_view(self.formats@)
    }
}

/// The units that follow the number of a format at the start of `p`.
pub open spec fn name_units(p: Seq<u8>) -> Seq<u16> {
    utf16::byte_units(p.skip(4))
}

/// How many bytes the first record of `p` takes: the number, the name and its
/// zero terminator, which may be missing at the end of the payload.
pub open spec fn long_record_len(p: Seq<u8>) -> int {
    let units = name_units(p);
    let n = bytes::index_from(units, 0u16, 0);
    if n < units.len() {
        4 + 2 * (n + 1)
    } else {
        4 + 2 * n
    }
}

/// The first record of `p`. A name is read unit by unit: surrogates are left
/// out.
pub open spec fn long_record(p: Seq<u8>) -> FormatView {
    FormatView {
        id: bytes::le32_at(p, 0),
        name: utf16::unit_chars(bytes::before_first(name_units(p), 0u16)),
    }
}

/// The formats in a payload with long names: records until fewer than four
/// bytes are left.
pub open spec fn long_formats(p: Seq<u8>) -> Seq<FormatView>
    decreases p.len(),
    via long_formats_decreases
{
    if p.len() < 4 {
        Seq::empty()
    } else {
        seq![long_record(p)] + long_formats(p.skip(long_record_len(p)))
    }
}

#[via_fn]
proof fn long_formats_decreases(p: Seq<u8>) {
    if p.len() >= 4 {
        lemma_long_record_len(p);
    }
}

/// A record takes at least its number, and no more than there is.
pub proof fn lemma_long_record_len(p: Seq<u8>)
    requires
        p.len() >= 4,
    ensures
        4 <= long_record_len(p) <= p.len(),
        long_record_len(p) % 2 == 0,
{
    bytes::lemma_index_from(name_units(p), 0u16, 0);
}

/// The formats in a payload with short names: records of 36 bytes, each a number
/// and a name of at most 32 bytes.
pub open spec fn short_formats(p: Seq<u8>) -> Seq<FormatView> {
    Seq::new(p.len() / 36, |i: int| short_record(p.subrange(36 * i, 36 * i + 36)))
}

/// One record of 36 bytes.
pub open spec fn short_record(p: Seq<u8>) -> FormatView {
    FormatView {
        id: bytes::le32_at(p, 0),
        name: text::utf8_lossy(bytes::before_first(p.skip(4), 0u8)),
    }
}

/// A record with a long name: the number, the units of the name, a zero unit.
pub open spec fn format_bytes(f: FormatView) -> Seq<u8> {
    bytes::le32(f.id) + utf16::unit_bytes(utf16::encode_utf16(f.name)) + bytes::le16(0)
}

/// The payload with long names.
pub open spec fn long_payload(formats: Seq<FormatView>) -> Seq<u8>
    decreases formats.len(),
{
    if formats.len() == 0 {
        Seq::empty()
    } else {
        format_bytes(formats[0]) + long_payload(formats.drop_first())
    }
}

/// The payload of two lists one after the other.
pub proof fn lemma_long_payload_concat(a: Seq<FormatView>, b: Seq<FormatView>)
    ensures
        long_payload(a + b) == long_payload(a) + long_payload(b),
    decreases a.len(),
{
    if a.len() == 0 {
        assert(a + b == b);
    } else {
        lemma_long_payload_concat(a.drop_first(), b);
        assert((a + b).drop_first() == a.drop_first() + b);
        assert((a + b)[0] == a[0]);
    }
}

/// The payload of one format.
proof fn lemma_long_payload_one(f: FormatView)
    ensures
        long_payload(seq![f]) == format_bytes(f),
{
    assert(seq![f].drop_first() == Seq::<FormatView>::empty());
    assert(long_payload(seq![f]) == format_bytes(f) + long_payload(seq![f].drop_first()));
}

/// The formats that offer text: Unicode first.
pub open spec fn text_format_list() -> Seq<FormatView> {
    seq![
        FormatView { id: StandardFormat::UnicodeText.number(), name: Seq::empty() },
        FormatView { id: StandardFormat::Text.number(), name: Seq::empty() },
    ]
}

/// The formats that offer files, under the numbers that they were registered
/// with.
pub open spec fn file_format_list(descriptor_id: u32, contents_id: u32) -> Seq<FormatView> {
    seq![
        FormatView { id: descriptor_id, name: "FileGroupDescriptorW"@ },
        FormatView { id: contents_id, name: "FileContents"@ },
    ]
}

/// Reads a name that starts at `from`: its characters, and where the bytes after
/// its terminator start.
fn read_long_name(payload: &[u8], from: usize) -> (r: (String, usize))
    requires
        4 <= from <= payload@.len(),
    ensures
        r.0@ == long_record(payload@.skip(from - 4)).name,
        r.1 == from - 4 + long_record_len(payload@.skip(from - 4)),
        r.1 <= payload@.len(),
{
    let ghost p = payload@.skip(from - 4);
    let ghost units = name_units(p);
    let ghost end = bytes::index_from(units, 0u16, 0);
    let mut name = String::new();
    let mut at: usize = from;
    let ghost mut k: int = 0;
    proof {
        bytes::lemma_index_from(units, 0u16, 0);
        assert(units.take(end).skip(0) == units.take(end));
    }
    while payload.len() - at >= 2
        invariant
            4 <= from <= at <= payload@.len(),
            p == payload@.skip(from - 4),
            units == name_units(p),
            end == bytes::index_from(units, 0u16, 0),
            at == from + 2 * k,
            0 <= k <= end <= units.len(),
            end < units.len() ==> units[end] == 0,
            forall|i: int| 0 <= i < end ==> units[i] != 0,
            name@ + utf16::unit_chars(units.take(end).skip(k)) == utf16::unit_chars(
                units.take(end),
            ),
        decreases payload@.len() - at,
    {
        let ch: u16 = bytes::u16_at(payload, at);
        assert(ch == units[k]) by {
            assert(p.skip(4)[2 * k] == payload@[at as int]);
            assert(p.skip(4)[2 * k + 1] == payload@[at + 1]);
        }
        at = at + 2;
        if ch == 0 {
            assert(k == end);
            assert(units.take(end).skip(k) == Seq::<u16>::empty());
            assert(name@ == utf16::unit_chars(units.take(end)));
            return (name, at);
        }
        let ghost rest = units.take(end).skip(k);
        let ghost before = name@;
        assert(k < end);
        assert(rest[0] == ch);
        assert(rest.drop_first() == units.take(end).skip(k + 1));
        if let Some(c) = utf16::unit_char(ch) {
            name.push(c);
            assert(before + (seq![c] + utf16::unit_chars(rest.drop_first())) == name@
                + utf16::unit_chars(rest.drop_first()));
        }
        proof {
            k = k + 1;
        }
    }
    assert(k == units.len());
    assert(units.take(end).skip(k) == Seq::<u16>::empty());
    assert(name@ == utf16::unit_chars(units.take(end)));
    (name, at)
}

impl FormatListPdu {
    /// A list of the given formats.
    pub fn new(formats: Vec<ClipboardFormat>) -> (p: FormatListPdu)
        ensures
            p.formats == formats,
    {
        FormatListPdu { formats }
    }

    /// An empty list.
    pub fn empty() -> (p: FormatListPdu)
        ensures
            p@ == Seq::<FormatView>::empty(),
    {
        let p = FormatListPdu { formats: Vec::new() };
        assert(p@ == Seq::<FormatView>::empty());
        p
    }

    /// Reads a payload with long names. Every payload is accepted.
    pub fn decode_long(payload: &[u8]) -> (r: Result<FormatListPdu, CliprdrError>)
        ensures
            r is Ok,
            r->Ok_0@ == long_formats(payload@),
    {
        let mut formats: Vec<ClipboardFormat> = Vec::new();
        let mut at: usize = 0;
        assert(payload@.skip(0) == payload@);
        assert(views::seq_view(formats@) == Seq::<FormatView>::empty());
        while payload.len() - at >= 4
            invariant
                at <= payload@.len(),
                views::seq_view(formats@) + long_formats(payload@.skip(at as int)) == long_formats(
                    payload@,
                ),
            decreases payload@.len() - at,
        {
            let ghost rest = payload@.skip(at as int);
            let ghost before = views::seq_view(formats@);
            let id: u32 = bytes::u32_at(payload, at);
            proof {
                lemma_long_record_len(rest);
            }
            let (name, next) = read_long_name(payload, at + 4);
            let f = ClipboardFormat { id, name };
            proof {
                assert(f@ == long_record(rest));
                assert(rest.skip(long_record_len(rest)) == payload@.skip(next as int));
                views::lemma_seq_view_push(formats@, f);
                assert(before + (seq![f@] + long_formats(payload@.skip(next as int)))
                    == before.push(f@) + long_formats(payload@.skip(next as int)));
            }
            formats.push(f);
            at = next;
        }
        let p = FormatListPdu { formats };
        assert(p@ == long_formats(payload@));
        Ok(p)
    }

    /// Reads a payload with short names. Every payload is accepted.
    pub fn decode_short(payload: &[u8]) -> (r: Result<FormatListPdu, CliprdrError>)
        ensures
            r is Ok,
            r->Ok_0@ == short_formats(payload@),
    {
        let mut formats: Vec<ClipboardFormat> = Vec::new();
        let mut at: usize = 0;
        while payload.len() - at >= 36
            invariant
                at <= payload@.len(),
                at == 36 * formats@.len(),
                views::seq_view(formats@) == short_formats(payload@).take(formats@.len() as int),
                formats@.len() <= payload@.len() / 36,
            decreases payload@.len() - at,
        {
            let ghost i = formats@.len() as int;
            let record = &payload[at..at + 36];
            let id: u32 = bytes::u32_at(record, 0);
            let name_field = &record[4..36];
            let n: usize = bytes::zero_index(name_field);
            let name = text::lossy_text(&name_field[0..n]);
            let f = ClipboardFormat { id, name };
            proof {
                assert(record@ == payload@.subrange(36 * i, 36 * i + 36));
                assert(name_field@ == record@.skip(4));
                assert(name_field@.subrange(0, n as int) == bytes::before_first(
                    record@.skip(4),
                    0u8,
                ));
                assert(f@ == short_record(record@));
                views::lemma_seq_view_push(formats@, f);
            }
            formats.push(f);
            at = at + 36;
            assert(views::seq_view(formats@) == short_formats(payload@).take(i + 1));
        }
        let p = FormatListPdu { formats };
        assert(p@ == short_formats(payload@));
        Ok(p)
    }

    /// Writes the payload with long names.
    pub fn encode_payload_long(&self) -> (buf: Vec<u8>)
        ensures
            buf@ == long_payload(self@),
    {
        let mut buf: Vec<u8> = Vec::new();
        let mut i: usize = 0;
        assert(self@.take(0) == Seq::<FormatView>::empty());
        while i < self.formats.len()
            invariant
                i <= self.formats@.len(),
                buf@ == long_payload(self@.take(i as int)),
            decreases self.formats@.len() - i,
        {
            let ghost before = buf@;
            let format = &self.formats[i];
            let units = utf16::to_units(format.name.as_str());
            bytes::push_u32(&mut buf, format.id);
            utf16::push_units(&mut buf, units.as_slice());
            bytes::push_u16(&mut buf, 0);
            proof {
                assert(buf@ == before + format_bytes(format@));
                assert(self@.take(i + 1) == self@.take(i as int) + seq![format@]);
                lemma_long_payload_concat(self@.take(i as int), seq![format@]);
                lemma_long_payload_one(format@);
            }
            i = i + 1;
        }
        assert(self@.take(self@.len() as int) == self@);
        buf
    }

    /// Writes the message.
    pub fn encode(&self) -> (buf: Vec<u8>)
        ensures
            buf@ == framed(MessageType::FormatList, 0, long_payload(self@)),
    {
        let payload = self.encode_payload_long();
        encode_pdu(MessageType::FormatList, MessageFlags::empty(), payload.as_slice())
    }

    /// The list that offers text, in Unicode and in ANSI.
    pub fn text_formats() -> (p: FormatListPdu)
        ensures
            p@ == text_format_list(),
    {
        let mut formats: Vec<ClipboardFormat> = Vec::new();
        formats.push(ClipboardFormat::standard(StandardFormat::UnicodeText));
        formats.push(ClipboardFormat::standard(StandardFormat::Text));
        let p = FormatListPdu { formats };
        assert(p@ == text_format_list());
        p
    }

    /// The list that offers files.
    pub fn file_formats(
        file_group_descriptor_format_id: u32,
        file_contents_format_id: u32,
    ) -> (p: FormatListPdu)
        ensures
            p@ == file_format_list(file_group_descriptor_format_id, file_contents_format_id),
    {
        let mut formats: Vec<ClipboardFormat> = Vec::new();
        formats.push(ClipboardFormat::new(file_group_descriptor_format_id, "FileGroupDescriptorW"));
        formats.push(ClipboardFormat::new(file_contents_format_id, "FileContents"));
        let p = FormatListPdu { formats };
        assert(p@ == file_format_list(file_group_descriptor_format_id, file_contents_format_id));
        p
    }
}

/// Answer to a format list.
#[derive(Debug, Clone, Copy)]
pub struct FormatListResponsePdu {
    /// Whether the list was accepted.
    pub success: bool,
}

/// The flags of an answer: completed or failed.
pub open spec fn response_flags(success: bool) -> u16 {
    if success {
        0x0001
    } else {
        0x0002
    }
}

/// The flags of an answer: completed or failed.
fn flags_of_response(success: bool) -> (f: MessageFlags)
    ensures
        f.0 == response_flags(success),
{
    if success {
        MessageFlags::from_bits(MessageFlags::RESPONSE_OK)
    } else {
        MessageFlags::from_bits(MessageFlags::RESPONSE_FAIL)
    }
}

/// The flags of an answer say whether it succeeded.
pub proof fn law_response_flags(success: bool)
    ensures
        MessageFlags(response_flags(success)).ok() == success,
{
    assert(0x0001u16 & 0x0001u16 != 0 && 0x0002u16 & 0x0001u16 == 0) by (bit_vector);
}

impl FormatListResponsePdu {
    /// The list was accepted.
    pub fn ok() -> (p: FormatListResponsePdu)
        ensures
            p.success,
    {
        FormatListResponsePdu { success: true }
    }

    /// The list was refused.
    pub fn fail() -> (p: FormatListResponsePdu)
        ensures
            !p.success,
    {
        FormatListResponsePdu { success: false }
    }

    /// Reads the answer from the flags of the header.
    pub fn from_flags(flags: MessageFlags) -> (p: FormatListResponsePdu)
        ensures
            p.success == flags.ok(),
    {
        FormatListResponsePdu { success: flags.is_ok() }
    }

    /// Writes the message, which has no payload.
    pub fn encode(&self) -> (buf: Vec<u8>)
        ensures
            buf@ == framed(
                MessageType::FormatListResponse,
                response_flags(self.success),
                Seq::empty(),
            ),
    {
        let payload: Vec<u8> = Vec::new();
        encode_pdu(
            MessageType::FormatListResponse,
            flags_of_response(self.success),
            payload.as_slice(),
        )
    }
}

/// Data in one format is asked for.
#[derive(Debug, Clone, Copy)]
pub struct FormatDataRequestPdu {
    /// The number of the format.
    pub requested_format_id: u32,
}

impl View for FormatDataRequestPdu {
    type V = u32;

    open spec fn view(&self) -> u32 {
        self.requested_format_id
    }
}

/// What `FormatDataRequestPdu::decode` reads: the number of the format.
pub open spec fn decode_data_request(p: Seq<u8>) -> Result<u32, CliprdrErrorView> {
    if p.len() < 4 {
        Err(
            CliprdrErrorView::PayloadTooShort {
                context: "FormatDataRequestPdu"@,
                expected: 4,
                actual: p.len() as int,
            },
        )
    } else {
        Ok(bytes::le32_at(p, 0))
    }
}

impl FormatDataRequestPdu {
    /// A request for the given format.
    pub fn new(format_id: u32) -> (p: FormatDataRequestPdu)
        ensures
            p.requested_format_id == format_id,
    {
        FormatDataRequestPdu { requested_format_id: format_id }
    }

    /// A request for Unicode text.
    pub fn unicode_text() -> (p: FormatDataRequestPdu)
        ensures
            p.requested_format_id == StandardFormat::UnicodeText.number(),
    {
        FormatDataRequestPdu::new(StandardFormat::UnicodeText.as_u32())
    }

    /// A request for ANSI text.
    pub fn text() -> (p: FormatDataRequestPdu)
        ensures
            p.requested_format_id == StandardFormat::Text.number(),
    {
        FormatDataRequestPdu::new(StandardFormat::Text.as_u32())
    }

    /// Reads the payload.
    pub fn decode(payload: &[u8]) -> (r: Result<FormatDataRequestPdu, CliprdrError>)
        ensures
            views::result_view(r) == decode_data_request(payload@),
    {
        if payload.len() < 4 {
            return Err(
                CliprdrError::PayloadTooShort {
                    context: "FormatDataRequestPdu",
                    expected: 4,
                    actual: payload.len(),
                },
            );
        }
        Ok(FormatDataRequestPdu { requested_format_id: bytes::u32_at(payload, 0) })
    }

    /// Writes the payload.
    pub fn encode_payload(&self) -> (buf: Vec<u8>)
        ensures
            buf@ == bytes::le32(self.requested_format_id),
    {
        let mut buf: Vec<u8> = Vec::new();
        bytes::push_u32(&mut buf, self.requested_format_id);
        assert(buf@ == bytes::le32(self.requested_format_id));
        buf
    }

    /// Writes the message.
    pub fn encode(&self) -> (buf: Vec<u8>)
        ensures
            buf@ == framed(
                MessageType::FormatDataRequest,
                0,
                bytes::le32(self.requested_format_id),
            ),
    {
        let payload = self.encode_payload();
        encode_pdu(MessageType::FormatDataRequest, MessageFlags::empty(), payload.as_slice())
    }
}

/// Answer to a data request.
#[derive(Debug, Clone)]
pub struct FormatDataResponsePdu {
    /// Whether the request succeeded.
    pub success: bool,
    /// The data, empty where the request failed.
    pub data: Vec<u8>,
}

/// The view of `FormatDataResponsePdu`.
pub struct DataResponseView {
    /// Whether the request succeeded.
    pub success: bool,
    /// The data, empty where the request failed.
    pub data: Seq<u8>,
}

impl View for FormatDataResponsePdu {
    type V = DataResponseView;

    open spec fn view(&self) -> DataResponseView {
        DataResponseView { success: self.success, data: self.data@ }
    }
}

/// Bytes without the little-endian byte order mark at their start.
pub open spec fn without_bom(data: Seq<u8>) -> Seq<u8> {
    if data.len() >= 2 && data[0] == 0xFF && data[1] == 0xFE {
        data.skip(2)
    } else {
        data
    }
}

/// The text of UTF-16 bytes up to the first zero unit: none where the number of
/// bytes is odd or a surrogate stands in no pair.
pub open spec fn unicode_text_of(data: Seq<u8>) -> Option<Seq<char>> {
    let body = without_bom(data);
    let units = bytes::before_first(utf16::byte_units(body), 0u16);
    if body.len() % 2 == 0 && utf16::paired(units) {
        Some(utf16::decode_utf16(units))
    } else {
        None
    }
}

/// The text of bytes up to the first zero byte: none where they are not
/// well-formed UTF-8.
pub open spec fn ansi_text_of(data: Seq<u8>) -> Option<Seq<char>> {
    let body = bytes::before_first(data, 0u8);
    if vstd::utf8::valid_utf8(body) {
        Some(vstd::utf8::decode_utf8(body))
    } else {
        None
    }
}

impl DataResponseView {
    /// What an answer with the given payload and flags holds.
    pub open spec fn read(payload: Seq<u8>, flags: MessageFlags) -> DataResponseView {
        DataResponseView {
            success: flags.ok(),
            data: if flags.ok() {
                payload
            } else {
                Seq::empty()
            },
        }
    }

    /// The data as Unicode text.
    pub open spec fn unicode_text(self) -> Option<Seq<char>> {
        if self.success && self.data.len() > 0 {
            unicode_text_of(self.data)
        } else {
            None
        }
    }

    /// The data as ANSI text.
    pub open spec fn ansi_text(self) -> Option<Seq<char>> {
        if self.success && self.data.len() > 0 {
            ansi_text_of(self.data)
        } else {
            None
        }
    }
}

impl FormatDataResponsePdu {
    /// The request succeeded with the given data.
    pub fn ok(data: Vec<u8>) -> (p: FormatDataResponsePdu)
        ensures
            p@ == (DataResponseView { success: true, data: data@ }),
    {
        FormatDataResponsePdu { success: true, data }
    }

    /// The request failed.
    pub fn fail() -> (p: FormatDataResponsePdu)
        ensures
            p@ == (DataResponseView { success: false, data: Seq::empty() }),
    {
        FormatDataResponsePdu { success: false, data: Vec::new() }
    }

    /// Reads the payload and the flags of the header. Every payload is accepted.
    pub fn decode(payload: &[u8], flags: MessageFlags) -> (r: Result<
        FormatDataResponsePdu,
        CliprdrError,
    >)
        ensures
            r is Ok,
            r->Ok_0@ == DataResponseView::read(payload@, flags),
    {
        let success = flags.is_ok();
        let data = if success {
            bytes::copy_bytes(payload)
        } else {
            Vec::new()
        };
        Ok(FormatDataResponsePdu { success, data })
    }

    /// The data as Unicode text (UTF-16, with or without a byte order mark, up
    /// to the terminator).
    pub fn as_utf8_from_unicode(&self) -> (t: Option<String>)
        ensures
            views::option_view(t) == self@.unicode_text(),
    {
        if !self.success || self.data.len() == 0 {
            return None;
        }
        let data = self.data.as_slice();
        let from: usize = if data.len() >= 2 && data[0] == 0xFF && data[1] == 0xFE {
            2
        } else {
            0
        };
        let body = &data[from..data.len()];
        assert(body@ == without_bom(self.data@));
        if body.len() % 2 != 0 {
            return None;
        }
        let units = utf16::units_before_zero(body);
        utf16::from_units(units.as_slice())
    }

    /// The data as ANSI text, up to the terminator; read as UTF-8.
    pub fn as_utf8_from_ansi(&self) -> (t: Option<String>)
        ensures
            views::option_view(t) == self@.ansi_text(),
    {
        if !self.success || self.data.len() == 0 {
            return None;
        }
        let end: usize = bytes::zero_index(self.data.as_slice());
        let body = bytes::copy_range(self.data.as_slice(), 0, end);
        assert(body@ == bytes::before_first(self.data@, 0u8));
        text::utf8_text(body)
    }

    /// Writes the message.
    pub fn encode(&self) -> (buf: Vec<u8>)
        ensures
            buf@ == framed(
                MessageType::FormatDataResponse,
                response_flags(self.success),
                self.data@,
            ),
    {
        encode_pdu(
            MessageType::FormatDataResponse,
            flags_of_response(self.success),
            self.data.as_slice(),
        )
    }
}

/// The size or a part of a file is asked for.
#[derive(Debug, Clone, Copy)]
pub struct FileContentsRequestPdu {
    /// Identifies the request in the answer.
    pub stream_id: u32,
    /// The place of the file in the file list.
    pub lindex: u32,
    /// Whether the size or a part is asked for.
    pub flags: FileContentsFlags,
    /// Where the part starts, lower half.
    pub position_low: u32,
    /// Where the part starts, upper half.
    pub position_high: u32,
    /// How many bytes are asked for.
    pub cb_requested: u32,
    /// The clipboard data that is locked, if any.
    pub clip_data_id: Option<u32>,
}

impl View for FileContentsRequestPdu {
    type V = FileContentsRequestPdu;

    open spec fn view(&self) -> FileContentsRequestPdu {
        *self
    }
}

/// What `FileContentsRequestPdu::decode` reads.
pub open spec fn decode_contents_request(p: Seq<u8>) -> Result<
    FileContentsRequestPdu,
    CliprdrErrorView,
> {
    let kind = bytes::le32_at(p, 8);
    if p.len() < 24 {
        Err(
            CliprdrErrorView::PayloadTooShort {
                context: "FileContentsRequestPdu"@,
                expected: 24,
                actual: p.len() as int,
            },
        )
    } else if kind != 1 && kind != 2 {
        Err(CliprdrErrorView::InvalidFlags((kind % 65536) as u16))
    } else {
        Ok(
            FileContentsRequestPdu {
                stream_id: bytes::le32_at(p, 0),
                lindex: bytes::le32_at(p, 4),
                flags: if kind == 1 {
                    FileContentsFlags::Size
                } else {
                    FileContentsFlags::Range
                },
                position_low: bytes::le32_at(p, 12),
                position_high: bytes::le32_at(p, 16),
                cb_requested: bytes::le32_at(p, 20),
                clip_data_id: if p.len() >= 28 {
                    Some(bytes::le32_at(p, 24))
                } else {
                    None
                },
            },
        )
    }
}

impl FileContentsRequestPdu {
    /// The payload of the request.
    pub open spec fn payload(self) -> Seq<u8> {
        bytes::le32(self.stream_id) + bytes::le32(self.lindex) + bytes::le32(self.flags.number())
            + bytes::le32(self.position_low) + bytes::le32(self.position_high) + bytes::le32(
            self.cb_requested,
        ) + match self.clip_data_id {
            Some(id) => bytes::le32(id),
            None => Seq::empty(),
        }
    }

    /// Where the part starts.
    pub open spec fn position(self) -> u64 {
        bytes::join_u32(self.position_high, self.position_low)
    }

    /// A request for the size of a file.
    pub fn size(stream_id: u32, file_index: u32) -> (p: FileContentsRequestPdu)
        ensures
            p == (FileContentsRequestPdu {
                stream_id,
                lindex: file_index,
                flags: FileContentsFlags::Size,
                position_low: 0,
                position_high: 0,
                cb_requested: 8,
                clip_data_id: None,
            }),
    {
        FileContentsRequestPdu {
            stream_id,
            lindex: file_index,
            flags: FileContentsFlags::Size,
            position_low: 0,
            position_high: 0,
            cb_requested: 8,
            clip_data_id: None,
        }
    }

    /// A request for a part of a file.
    pub fn range(stream_id: u32, file_index: u32, offset: u64, length: u32) -> (p:
        FileContentsRequestPdu)
        ensures
            p == (FileContentsRequestPdu {
                stream_id,
                lindex: file_index,
                flags: FileContentsFlags::Range,
                position_low: bytes::low_u32(offset),
                position_high: bytes::high_u32(offset),
                cb_requested: length,
                clip_data_id: None,
            }),
            p.position() == offset,
    {
        proof {
            bytes::law_halves_join(offset);
        }
        FileContentsRequestPdu {
            stream_id,
            lindex: file_index,
            flags: FileContentsFlags::Range,
            position_low: bytes::lower_half(offset),
            position_high: bytes::upper_half(offset),
            cb_requested: length,
            clip_data_id: None,
        }
    }

    /// Reads the payload.
    pub fn decode(payload: &[u8]) -> (r: Result<FileContentsRequestPdu, CliprdrError>)
        ensures
            views::result_view(r) == decode_contents_request(payload@),
    {
        if payload.len() < 24 {
            return Err(
                CliprdrError::PayloadTooShort {
                    context: "FileContentsRequestPdu",
                    expected: 24,
                    actual: payload.len(),
                },
            );
        }
        let kind: u32 = bytes::u32_at(payload, 8);
        let flags = match kind {
            1 => FileContentsFlags::Size,
            2 => FileContentsFlags::Range,
            _ => {
                return Err(CliprdrError::InvalidFlags((kind % 65536) as u16));
            },
        };
        let clip_data_id = if payload.len() >= 28 {
            Some(bytes::u32_at(payload, 24))
        } else {
            None
        };
        Ok(
            FileContentsRequestPdu {
                stream_id: bytes::u32_at(payload, 0),
                lindex: bytes::u32_at(payload, 4),
                flags,
                position_low: bytes::u32_at(payload, 12),
                position_high: bytes::u32_at(payload, 16),
                cb_requested: bytes::u32_at(payload, 20),
                clip_data_id,
            },
        )
    }

    /// Writes the payload.
    pub fn encode_payload(&self) -> (buf: Vec<u8>)
        ensures
            buf@ == self.payload(),
    {
        let mut buf: Vec<u8> = Vec::new();
        bytes::push_u32(&mut buf, self.stream_id);
        bytes::push_u32(&mut buf, self.lindex);
        bytes::push_u32(&mut buf, self.flags.as_u32());
        bytes::push_u32(&mut buf, self.position_low);
        bytes::push_u32(&mut buf, self.position_high);
        bytes::push_u32(&mut buf, self.cb_requested);
        if let Some(id) = self.clip_data_id {
            bytes::push_u32(&mut buf, id);
        }
        assert(buf@ == self.payload());
        buf
    }

    /// Writes the message.
    pub fn encode(&self) -> (buf: Vec<u8>)
        ensures
            buf@ == framed(MessageType::FileContentsRequest, 0, self.payload()),
    {
        let payload = self.encode_payload();
        encode_pdu(MessageType::FileContentsRequest, MessageFlags::empty(), payload.as_slice())
    }

    /// Where the part starts.
    pub fn offset(&self) -> (n: u64)
        ensures
            n == self.position(),
    {
        bytes::join_halves(self.position_high, self.position_low)
    }
}

/// Answer to a file request.
#[derive(Debug, Clone)]
pub struct FileContentsResponsePdu {
    /// Whether the request succeeded.
    pub success: bool,
    /// The identifier of the request.
    pub stream_id: u32,
    /// The size (eight bytes) or the part of the file.
    pub data: Vec<u8>,
}

/// The view of `FileContentsResponsePdu`.
pub struct ContentsResponseView {
    /// Whether the request succeeded.
    pub success: bool,
    /// The identifier of the request.
    pub stream_id: u32,
    /// The size (eight bytes) or the part of the file.
    pub data: Seq<u8>,
}

impl View for FileContentsResponsePdu {
    type V = ContentsResponseView;

    open spec fn view(&self) -> ContentsResponseView {
        ContentsResponseView {
            success: self.success,
            stream_id: self.stream_id,
            data: self.data@,
        }
    }
}

/// What `FileContentsResponsePdu::decode` reads.
pub open spec fn decode_contents_response(p: Seq<u8>, flags: MessageFlags) -> Result<
    ContentsResponseView,
    CliprdrErrorView,
> {
    if p.len() < 4 {
        Err(
            CliprdrErrorView::PayloadTooShort {
                context: "FileContentsResponsePdu"@,
                expected: 4,
                actual: p.len() as int,
            },
        )
    } else {
        Ok(
            ContentsResponseView {
                success: flags.ok(),
                stream_id: bytes::le32_at(p, 0),
                data: if flags.ok() {
                    p.skip(4)
                } else {
                    Seq::empty()
                },
            },
        )
    }
}

impl ContentsResponseView {
    /// The size that the answer holds, where it holds one.
    pub open spec fn file_size(self) -> Option<u64> {
        if self.success && self.data.len() == 8 {
            Some(bytes::le64_at(self.data, 0))
        } else {
            None
        }
    }
}

impl FileContentsResponsePdu {
    /// The request succeeded with the given data.
    pub fn ok(stream_id: u32, data: Vec<u8>) -> (p: FileContentsResponsePdu)
        ensures
            p@ == (ContentsResponseView { success: true, stream_id, data: data@ }),
    {
        FileContentsResponsePdu { success: true, stream_id, data }
    }

    /// The request failed.
    pub fn fail(stream_id: u32) -> (p: FileContentsResponsePdu)
        ensures
            p@ == (ContentsResponseView { success: false, stream_id, data: Seq::empty() }),
    {
        FileContentsResponsePdu { success: false, stream_id, data: Vec::new() }
    }

    /// Reads the payload and the flags of the header.
    pub fn decode(payload: &[u8], flags: MessageFlags) -> (r: Result<
        FileContentsResponsePdu,
        CliprdrError,
    >)
        ensures
            views::result_view(r) == decode_contents_response(payload@, flags),
    {
        if payload.len() < 4 {
            return Err(
                CliprdrError::PayloadTooShort {
                    context: "FileContentsResponsePdu",
                    expected: 4,
                    actual: payload.len(),
                },
            );
        }
        let success = flags.is_ok();
        let data = if success {
            bytes::copy_range(payload, 4, payload.len())
        } else {
            Vec::new()
        };
        let p = FileContentsResponsePdu { success, stream_id: bytes::u32_at(payload, 0), data };
        assert(flags.ok() ==> p.data@ == payload@.skip(4));
        Ok(p)
    }

    /// The size of the file, where the answer holds one.
    pub fn as_file_size(&self) -> (n: Option<u64>)
        ensures
            n == self@.file_size(),
    {
        if !self.success || self.data.len() != 8 {
            return None;
        }
        Some(bytes::u64_at(self.data.as_slice(), 0))
    }

    /// Writes the message.
    pub fn encode(&self) -> (buf: Vec<u8>)
        ensures
            buf@ == framed(
                MessageType::FileContentsResponse,
                response_flags(self.success),
                bytes::le32(self.stream_id) + self.data@,
            ),
    {
        let mut payload: Vec<u8> = Vec::new();
        bytes::push_u32(&mut payload, self.stream_id);
        bytes::push_bytes(&mut payload, self.data.as_slice());
        assert(payload@ == bytes::le32(self.stream_id) + self.data@);
        encode_pdu(
            MessageType::FileContentsResponse,
            flags_of_response(self.success),
            payload.as_slice(),
        )
    }
}

/// A file in a file list.
#[derive(Debug)]
pub struct FileDescriptorW {
    /// Which of the fields are valid.
    pub flags: u32,
    /// The attributes of the file.
    pub file_attributes: u32,
    /// When it was created, as FILETIME.
    pub creation_time: u64,
    /// When it was last read, as FILETIME.
    pub last_access_time: u64,
    /// When it was last written, as FILETIME.
    pub last_write_time: u64,
    /// Its size in bytes.
    pub file_size: u64,
    /// Its name.
    pub file_name: String,
}

/// The view of `FileDescriptorW`.
pub struct DescriptorView {
    /// Which of the fields are valid.
    pub flags: u32,
    /// The attributes of the file.
    pub file_attributes: u32,
    /// When it was created, as FILETIME.
    pub creation_time: u64,
    /// When it was last read, as FILETIME.
    pub last_access_time: u64,
    /// When it was last written, as FILETIME.
    pub last_write_time: u64,
    /// Its size in bytes.
    pub file_size: u64,
    /// Its name.
    pub file_name: Seq<char>,
}

impl View for FileDescriptorW {
    type V = DescriptorView;

    open spec fn view(&self) -> DescriptorView {
        DescriptorView {
            flags: self.flags,
            file_attributes: self.file_attributes,
            creation_time: self.creation_time,
            last_access_time: self.last_access_time,
            last_write_time: self.last_write_time,
            file_size: self.file_size,
            file_name: self.file_name@,
        }
    }
}

impl Clone for FileDescriptorW {
    fn clone(&self) -> (d: FileDescriptorW)
        ensures
            d@ == self@,
    {
        FileDescriptorW {
            flags: self.flags,
            file_attributes: self.file_attributes,
            creation_time: self.creation_time,
            last_access_time: self.last_access_time,
            last_write_time: self.last_write_time,
            file_size: self.file_size,
            file_name: self.file_name.clone(),
        }
    }
}

/// `n` zero bytes.
pub open spec fn zeros(n: nat) -> Seq<u8> {
    Seq::new(n, |i: int| 0u8)
}

/// The units of a name that fit in a descriptor beside the terminator: the first
/// 259.
pub open spec fn kept_units(name: Seq<char>) -> Seq<u16> {
    let units = utf16::encode_utf16(name);
    if units.len() <= 259 {
        units
    } else {
        units.take(259)
    }
}

/// The 520 bytes of a name: its units, then zeros.
pub open spec fn name_field(name: Seq<char>) -> Seq<u8> {
    utf16::unit_bytes(kept_units(name)) + zeros((520 - 2 * kept_units(name).len()) as nat)
}

/// The descriptor in the first 592 bytes of `data`.
pub open spec fn read_descriptor(data: Seq<u8>) -> DescriptorView {
    DescriptorView {
        flags: bytes::le32_at(data, 0),
        file_attributes: bytes::le32_at(data, 36),
        creation_time: bytes::le64_at(data, 40),
        last_access_time: bytes::le64_at(data, 48),
        last_write_time: bytes::le64_at(data, 56),
        file_size: bytes::join_u32(bytes::le32_at(data, 64), bytes::le32_at(data, 68)),
        file_name: utf16::decode_utf16(
            bytes::before_first(utf16::byte_units(data.subrange(72, 592)), 0u16),
        ),
    }
}

/// What `FileDescriptorW::decode` reads.
pub open spec fn decode_descriptor(data: Seq<u8>) -> Result<DescriptorView, CliprdrErrorView> {
    if data.len() < 592 {
        Err(
            CliprdrErrorView::PayloadTooShort {
                context: "FileDescriptorW"@,
                expected: 592,
                actual: data.len() as int,
            },
        )
    } else {
        Ok(read_descriptor(data))
    }
}

impl DescriptorView {
    /// The first 72 bytes of the descriptor: all but the name.
    pub open spec fn fixed_bytes(self) -> Seq<u8> {
        bytes::le32(self.flags) + zeros(32) + bytes::le32(self.file_attributes) + bytes::le64(
            self.creation_time,
        ) + bytes::le64(self.last_access_time) + bytes::le64(self.last_write_time) + bytes::le32(
            bytes::high_u32(self.file_size),
        ) + bytes::le32(bytes::low_u32(self.file_size))
    }

    /// The 592 bytes of the descriptor. Reserved fields and what the name leaves
    /// of its field are zero.
    pub open spec fn bytes(self) -> Seq<u8> {
        self.fixed_bytes() + name_field(self.file_name)
    }

    /// The file attributes are valid.
    pub open spec fn attributes_valid(self) -> bool {
        self.flags & 0x0004 != 0
    }

    /// The descriptor of a directory.
    pub open spec fn directory(self) -> bool {
        self.attributes_valid() && self.file_attributes & 0x10 != 0
    }
}

impl FileDescriptorW {
    /// Reads a descriptor from the start of `data`.
    pub fn decode(data: &[u8]) -> (r: Result<FileDescriptorW, CliprdrError>)
        ensures
            views::result_view(r) == decode_descriptor(data@),
    {
        if data.len() < FILEDESCRIPTORW_SIZE {
            return Err(
                CliprdrError::PayloadTooShort {
                    context: "FileDescriptorW",
                    expected: FILEDESCRIPTORW_SIZE,
                    actual: data.len(),
                },
            );
        }
        let units = utf16::units_before_zero(&data[72..592]);
        let file_name = utf16::from_units_lossy(units.as_slice());
        Ok(
            FileDescriptorW {
                flags: bytes::u32_at(data, 0),
                file_attributes: bytes::u32_at(data, 36),
                creation_time: bytes::u64_at(data, 40),
                last_access_time: bytes::u64_at(data, 48),
                last_write_time: bytes::u64_at(data, 56),
                file_size: bytes::join_halves(bytes::u32_at(data, 64), bytes::u32_at(data, 68)),
                file_name,
            },
        )
    }

    /// Tests whether the size is valid.
    pub fn has_file_size(&self) -> (b: bool)
        ensures
            b == (self.flags & 0x0040 != 0),
    {
        self.flags & fd_flags::FD_FILESIZE != 0
    }

    /// Tests whether the attributes are valid.
    pub fn has_attributes(&self) -> (b: bool)
        ensures
            b == self@.attributes_valid(),
    {
        self.flags & fd_flags::FD_ATTRIBUTES != 0
    }

    /// Tests for a directory.
    pub fn is_directory(&self) -> (b: bool)
        ensures
            b == self@.directory(),
    {
        self.has_attributes() && (self.file_attributes & file_attributes::FILE_ATTRIBUTE_DIRECTORY)
            != 0
    }

    /// Writes the 592 bytes of the descriptor.
    pub fn encode(&self) -> (buf: Vec<u8>)
        ensures
            buf@ == self@.bytes(),
            buf@.len() == 592,
    {
        let units = utf16::to_units(self.file_name.as_str());
        let kept: usize = if units.len() <= 259 {
            units.len()
        } else {
            259
        };
        let name = &units.as_slice()[0..kept];
        assert(name@ == kept_units(self.file_name@));
        let mut buf: Vec<u8> = Vec::new();
        bytes::push_u32(&mut buf, self.flags);
        bytes::push_zeros(&mut buf, 32);
        bytes::push_u32(&mut buf, self.file_attributes);
        bytes::push_u64(&mut buf, self.creation_time);
        bytes::push_u64(&mut buf, self.last_access_time);
        bytes::push_u64(&mut buf, self.last_write_time);
        bytes::push_u32(&mut buf, bytes::upper_half(self.file_size));
        bytes::push_u32(&mut buf, bytes::lower_half(self.file_size));
        assert(buf@ == self@.fixed_bytes());
        utf16::push_units(&mut buf, name);
        bytes::push_zeros(&mut buf, 520 - 2 * kept);
        assert(buf@ == self@.bytes());
        buf
    }

    /// The descriptor of a local file.
    pub fn from_local_file(
        file_name: String,
        file_size: u64,
        modified_time: u64,
        is_directory: bool,
    ) -> (d: FileDescriptorW)
        ensures
            d@ == (DescriptorView {
                flags: 0x0064,
                file_attributes: if is_directory {
                    0x0010
                } else {
                    0x0080
                },
                creation_time: 0,
                last_access_time: 0,
                last_write_time: filetime_of(modified_time),
                file_size,
                file_name: file_name@,
            }),
            d@.directory() == is_directory,
    {
        proof {
            assert(0x0004u32 | 0x0040u32 | 0x0020u32 == 0x0064u32) by (bit_vector);
            assert(0x0064u32 & 0x0004u32 != 0 && 0x0010u32 & 0x10u32 != 0 && 0x0080u32 & 0x10u32
                == 0) by (bit_vector);
        }
        FileDescriptorW {
            flags: fd_flags::FD_ATTRIBUTES | fd_flags::FD_FILESIZE | fd_flags::FD_WRITETIME,
            file_attributes: if is_directory {
                file_attributes::FILE_ATTRIBUTE_DIRECTORY
            } else {
                file_attributes::FILE_ATTRIBUTE_NORMAL
            },
            creation_time: 0,
            last_access_time: 0,
            last_write_time: unix_to_filetime(modified_time),
            file_size,
            file_name,
        }
    }
}

/// A list of files.
#[derive(Debug, Clone)]
pub struct CliprdrFileList {
    /// The files.
    pub files: Vec<FileDescriptorW>,
}

impl View for CliprdrFileList {
    type V = Seq<DescriptorView>;

    open spec fn view(&self) -> Seq<DescriptorView> {
        views::seq_view(self.files@)
    }
}

/// The bytes of the descriptor at place `i` of a file list.
pub open spec fn descriptor_slot(data: Seq<u8>, i: int) -> Seq<u8> {
    data.subrange(4 + 592 * i, 4 + 592 * i + 592)
}

/// What `CliprdrFileList::decode` reads: a count and that many descriptors. The
/// expected size in an error is no more than the largest `usize`.
pub open spec fn decode_file_list(data: Seq<u8>) -> Result<Seq<DescriptorView>, CliprdrErrorView> {
    let count = bytes::le32_at(data, 0) as int;
    if data.len() < 4 {
        Err(
            CliprdrErrorView::PayloadTooShort {
                context: "CliprdrFileList"@,
                expected: 4,
                actual: data.len() as int,
            },
        )
    } else if data.len() < 4 + 592 * count {
        Err(
            CliprdrErrorView::PayloadTooShort {
                context: "CliprdrFileList files"@,
                expected: if 4 + 592 * count <= usize::MAX {
                    4 + 592 * count
                } else {
                    usize::MAX as int
                },
                actual: data.len() as int,
            },
        )
    } else {
        Ok(Seq::new(count as nat, |i: int| read_descriptor(descriptor_slot(data, i))))
    }
}

/// The descriptors of a list, one after the other.
pub open spec fn descriptor_bytes(files: Seq<DescriptorView>) -> Seq<u8>
    decreases files.len(),
{
    if files.len() == 0 {
        Seq::empty()
    } else {
        descriptor_bytes(files.drop_last()) + files.last().bytes()
    }
}

/// The bytes of a file list. The count holds the lower 32 bits of the length.
pub open spec fn file_list_bytes(files: Seq<DescriptorView>) -> Seq<u8> {
    bytes::le32((files.len() as int % 0x1_0000_0000) as u32) + descriptor_bytes(files)
}

impl CliprdrFileList {
    /// Reads a file list.
    pub fn decode(data: &[u8]) -> (r: Result<CliprdrFileList, CliprdrError>)
        ensures
            views::result_view(r) == decode_file_list(data@),
    {
        if data.len() < 4 {
            return Err(
                CliprdrError::PayloadTooShort {
                    context: "CliprdrFileList",
                    expected: 4,
                    actual: data.len(),
                },
            );
        }
        let count: u32 = bytes::u32_at(data, 0);
        let needed: u64 = 4 + 592 * (count as u64);
        if (data.len() as u64) < needed {
            let expected: usize = if needed <= usize::MAX as u64 {
                needed as usize
            } else {
                usize::MAX
            };
            return Err(
                CliprdrError::PayloadTooShort {
                    context: "CliprdrFileList files",
                    expected,
                    actual: data.len(),
                },
            );
        }
        let ghost slots = Seq::new(
            count as nat,
            |i: int| read_descriptor(descriptor_slot(data@, i)),
        );
        let mut files: Vec<FileDescriptorW> = Vec::new();
        let mut i: u32 = 0;
        let mut at: usize = 4;
        while i < count
            invariant
                i <= count,
                4 + 592 * count <= data@.len() <= usize::MAX,
                at == 4 + 592 * i,
                files@.len() == i,
                slots == Seq::new(
                    count as nat,
                    |i: int| read_descriptor(descriptor_slot(data@, i)),
                ),
                views::seq_view(files@) == slots.take(i as int),
            decreases count - i,
        {
            let slot = &data[at..at + FILEDESCRIPTORW_SIZE];
            assert(slot@ == descriptor_slot(data@, i as int));
            match FileDescriptorW::decode(slot) {
                Ok(d) => {
                    proof {
                        views::lemma_seq_view_push(files@, d);
                        assert(d@ == slots[i as int]);
                    }
                    files.push(d);
                },
                Err(e) => {
                    assert(views::result_view(Err::<FileDescriptorW, CliprdrError>(e)) == Err::<
                        DescriptorView,
                        CliprdrErrorView,
                    >(e@));
                    return Err(e);
                },
            }
            at = at + FILEDESCRIPTORW_SIZE;
            i = i + 1;
            assert(views::seq_view(files@) == slots.take(i as int));
        }
        let list = CliprdrFileList { files };
        assert(list@ == slots);
        Ok(list)
    }

    /// How many files there are.
    pub fn count(&self) -> (n: usize)
        ensures
            n == self.files@.len(),
    {
        self.files.len()
    }

    /// The names of the files.
    pub fn file_names(&self) -> (names: Vec<&str>)
        ensures
            names@.len() == self.files@.len(),
            forall|i: int|
                0 <= i < names@.len() ==> (#[trigger] names@[i])@ == self.files@[i].file_name@,
    {
        let mut names: Vec<&str> = Vec::new();
        let mut i: usize = 0;
        while i < self.files.len()
            invariant
                i <= self.files@.len(),
                names@.len() == i,
                forall|j: int|
                    0 <= j < names@.len() ==> (#[trigger] names@[j])@ == self.files@[j].file_name@,
            decreases self.files@.len() - i,
        {
            names.push(self.files[i].file_name.as_str());
            i = i + 1;
        }
        names
    }

    /// A list of the given files.
    pub fn new(files: Vec<FileDescriptorW>) -> (list: CliprdrFileList)
        ensures
            list.files == files,
    {
        CliprdrFileList { files }
    }

    /// Writes the file list.
    pub fn encode(&self) -> (buf: Vec<u8>)
        ensures
            buf@ == file_list_bytes(self@),
    {
        let mut buf: Vec<u8> = Vec::new();
        bytes::push_u32(&mut buf, bytes::length_u32(self.files.len()));
        let ghost head = buf@;
        let mut i: usize = 0;
        assert(self@.take(0) == Seq::<DescriptorView>::empty());
        while i < self.files.len()
            invariant
                i <= self.files@.len(),
                buf@ == head + descriptor_bytes(self@.take(i as int)),
            decreases self.files@.len() - i,
        {
            let file_bytes = self.files[i].encode();
            bytes::push_bytes(&mut buf, file_bytes.as_slice());
            proof {
                let longer = self@.take(i + 1);
                assert(longer.drop_last() == self@.take(i as int));
                assert(longer.last() == self.files@[i as int]@);
            }
            i = i + 1;
            assert(buf@ == head + descriptor_bytes(self@.take(i as int)));
        }
        assert(self@.take(self@.len() as int) == self@);
        buf
    }
}

/// A clipboard message.
#[derive(Debug, Clone)]
pub enum CliprdrPdu {
    /// The server's clipboard is ready.
    MonitorReady(MonitorReadyPdu),
    /// Capabilities.
    ClipCaps(ClipCapsPdu),
    /// Formats on offer.
    FormatList(FormatListPdu),
    /// Answer to a format list.
    FormatListResponse(FormatListResponsePdu),
    /// Data in one format is asked for.
    FormatDataRequest(FormatDataRequestPdu),
    /// Answer to a data request.
    FormatDataResponse(FormatDataResponsePdu),
    /// The size or a part of a file is asked for.
    FileContentsRequest(FileContentsRequestPdu),
    /// Answer to a file request.
    FileContentsResponse(FileContentsResponsePdu),
}

/// The view of `CliprdrPdu`.
pub enum PduView {
    /// The server's clipboard is ready.
    MonitorReady,
    /// Capabilities: the general flags.
    ClipCaps(u32),
    /// Formats on offer.
    FormatList(Seq<FormatView>),
    /// Answer to a format list: whether it was accepted.
    FormatListResponse(bool),
    /// Data in one format is asked for: its number.
    FormatDataRequest(u32),
    /// Answer to a data request.
    FormatDataResponse(DataResponseView),
    /// The size or a part of a file is asked for.
    FileContentsRequest(FileContentsRequestPdu),
    /// Answer to a file request.
    FileContentsResponse(ContentsResponseView),
}

impl View for CliprdrPdu {
    type V = PduView;

    open spec fn view(&self) -> PduView {
        match *self {
            CliprdrPdu::MonitorReady(_) => PduView::MonitorReady,
            CliprdrPdu::ClipCaps(p) => PduView::ClipCaps(p@),
            CliprdrPdu::FormatList(p) => PduView::FormatList(p@),
            CliprdrPdu::FormatListResponse(p) => PduView::FormatListResponse(p.success),
            CliprdrPdu::FormatDataRequest(p) => PduView::FormatDataRequest(p@),
            CliprdrPdu::FormatDataResponse(p) => PduView::FormatDataResponse(p@),
            CliprdrPdu::FileContentsRequest(p) => PduView::FileContentsRequest(p),
            CliprdrPdu::FileContentsResponse(p) => PduView::FileContentsResponse(p@),
        }
    }
}

/// The payload of a message: the bytes after the header that the length field
/// counts, none where fewer are there.
pub open spec fn payload_of(data: Seq<u8>) -> Seq<u8> {
    let n = bytes::le32_at(data, 4) as int;
    if data.len() >= 8 + n {
        data.subrange(8, 8 + n)
    } else {
        Seq::empty()
    }
}

/// What `CliprdrPdu::decode` reads.
pub open spec fn decode_pdu(data: Seq<u8>, long_names: bool) -> Result<PduView, CliprdrErrorView> {
    let number = bytes::le16_at(data, 0);
    let flags = MessageFlags(bytes::le16_at(data, 2));
    let p = payload_of(data);
    if data.len() < 8 {
        Err(
            CliprdrErrorView::PayloadTooShort {
                context: "CLIPRDR header"@,
                expected: 8,
                actual: data.len() as int,
            },
        )
    } else {
        match MessageType::of_number(number) {
            Some(MessageType::MonitorReady) => Ok(PduView::MonitorReady),
            Some(MessageType::ClipCaps) => match decode_caps(p) {
                Ok(v) => Ok(PduView::ClipCaps(v)),
                Err(e) => Err(e),
            },
            Some(MessageType::FormatList) => Ok(
                PduView::FormatList(
                    if long_names || !flags.ascii_names() {
                        long_formats(p)
                    } else {
                        short_formats(p)
                    },
                ),
            ),
            Some(MessageType::FormatListResponse) => Ok(PduView::FormatListResponse(flags.ok())),
            Some(MessageType::FormatDataRequest) => match decode_data_request(p) {
                Ok(v) => Ok(PduView::FormatDataRequest(v)),
                Err(e) => Err(e),
            },
            Some(MessageType::FormatDataResponse) => Ok(
                PduView::FormatDataResponse(DataResponseView::read(p, flags)),
            ),
            Some(MessageType::FileContentsRequest) => match decode_contents_request(p) {
                Ok(v) => Ok(PduView::FileContentsRequest(v)),
                Err(e) => Err(e),
            },
            Some(MessageType::FileContentsResponse) => match decode_contents_response(p, flags) {
                Ok(v) => Ok(PduView::FileContentsResponse(v)),
                Err(e) => Err(e),
            },
            _ => Err(CliprdrErrorView::InvalidMessageType(number)),
        }
    }
}

impl CliprdrPdu {
    /// Reads a message with its header.
    pub fn decode(data: &[u8], use_long_format_names: bool) -> (r: Result<CliprdrPdu, CliprdrError>)
        ensures
            views::result_view(r) == decode_pdu(data@, use_long_format_names),
    {
        if data.len() < CLIPRDR_HEADER_SIZE {
            return Err(
                CliprdrError::PayloadTooShort {
                    context: "CLIPRDR header",
                    expected: CLIPRDR_HEADER_SIZE,
                    actual: data.len(),
                },
            );
        }
        let number: u16 = bytes::u16_at(data, 0);
        let flags = MessageFlags::from_bits(bytes::u16_at(data, 2));
        let n: u32 = bytes::u32_at(data, 4);
        let end: usize = if (data.len() - CLIPRDR_HEADER_SIZE) as u64 >= n as u64 {
            CLIPRDR_HEADER_SIZE + n as usize
        } else {
            CLIPRDR_HEADER_SIZE
        };
        let payload = &data[CLIPRDR_HEADER_SIZE..end];
        assert(payload@ == payload_of(data@));
        let msg_type = match MessageType::try_from(number) {
            Ok(t) => t,
            Err(e) => {
                return Err(e);
            },
        };
        match msg_type {
            MessageType::MonitorReady => match MonitorReadyPdu::decode(payload) {
                Ok(p) => Ok(CliprdrPdu::MonitorReady(p)),
                Err(e) => Err(e),
            },
            MessageType::ClipCaps => match ClipCapsPdu::decode(payload) {
                Ok(p) => Ok(CliprdrPdu::ClipCaps(p)),
                Err(e) => Err(e),
            },
            MessageType::FormatList => {
                let list = if use_long_format_names || !flags.has_ascii_names() {
                    FormatListPdu::decode_long(payload)
                } else {
                    FormatListPdu::decode_short(payload)
                };
                match list {
                    Ok(p) => Ok(CliprdrPdu::FormatList(p)),
                    Err(e) => Err(e),
                }
            },
            MessageType::FormatListResponse => Ok(
                CliprdrPdu::FormatListResponse(FormatListResponsePdu::from_flags(flags)),
            ),
            MessageType::FormatDataRequest => match FormatDataRequestPdu::decode(payload) {
                Ok(p) => Ok(CliprdrPdu::FormatDataRequest(p)),
                Err(e) => Err(e),
            },
            MessageType::FormatDataResponse => match FormatDataResponsePdu::decode(payload, flags) {
                Ok(p) => Ok(CliprdrPdu::FormatDataResponse(p)),
                Err(e) => Err(e),
            },
            MessageType::FileContentsRequest => match FileContentsRequestPdu::decode(payload) {
                Ok(p) => Ok(CliprdrPdu::FileContentsRequest(p)),
                Err(e) => Err(e),
            },
            MessageType::FileContentsResponse => match FileContentsResponsePdu::decode(
                payload,
                flags,
            ) {
                Ok(p) => Ok(CliprdrPdu::FileContentsResponse(p)),
                Err(e) => Err(e),
            },
            _ => Err(CliprdrError::InvalidMessageType(msg_type.as_u16())),
        }
    }
}

} // verus!
