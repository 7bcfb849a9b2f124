//! The clipboard channel (CLIPRDR): announcing, fetching and serving text and
//! files.
//!
//! The handler reads and writes no channel and no file. It queues events for the
//! program around it, and the file parts that the program has to read for the
//! server.
use vstd::prelude::*;

use std::collections::HashSet;
use std::path::PathBuf;

use crate::bytes;
use crate::text;
use crate::utf16;
use crate::views;

pub mod exchange;
pub mod file_transfer;
pub mod laws;
pub mod pdu;
pub mod transfer_laws;

use pdu::{
    ClipCapsPdu, ClipboardFormat, CliprdrError, CliprdrErrorView, CliprdrFileList, CliprdrPdu,
    ContentsResponseView, DataResponseView, DescriptorView, FileContentsFlags,
    FileContentsRequestPdu, FileContentsResponsePdu, FileDescriptorW, FormatDataRequestPdu,
    FormatDataResponsePdu, FormatListPdu, FormatListResponsePdu, FormatView, MessageType, PduView,
    StandardFormat,
};

verus! {

/// `std::path::PathBuf`, carried through without being looked into.
#[verifier::external_type_specification]
#[verifier::external_body]
pub struct ExPathBuf(PathBuf);

/// `PathBuf::clone` gives a duplicate of the path.
pub assume_specification[ <PathBuf as Clone>::clone ](path: &PathBuf) -> (copy: PathBuf)
    ensures
        copy == *path,
;

/// The name of the channel.
pub const CLIPRDR_CHANNEL_NAME: &'static str = "cliprdr";

/// First number above the ASCII characters.
const ASCII_MAX: u32 = 128;

/// What happened to the remote clipboard.
#[derive(Debug, Clone)]
pub enum ClipboardEvent {
    /// The remote clipboard changed.
    FormatsAvailable {
        /// The numbers of the formats on offer.
        formats: Vec<u32>,
        /// Text is on offer.
        has_text: bool,
        /// Files are on offer.
        has_files: bool,
    },
    /// Text arrived.
    TextReceived {
        /// The text.
        text: String,
    },
    /// A request for data failed.
    RequestFailed,
    /// A file list arrived.
    FilesReceived {
        /// The files.
        files: Vec<FileInfo>,
    },
    /// A part of a file arrived.
    FileContentReceived {
        /// The identifier of the request.
        stream_id: u32,
        /// The part.
        data: Vec<u8>,
    },
    /// The size of a file arrived.
    FileSizeReceived {
        /// The identifier of the request.
        stream_id: u32,
        /// The size in bytes.
        size: u64,
    },
    /// A file request failed.
    FileTransferFailed {
        /// The identifier of the request.
        stream_id: u32,
    },
}

/// The view of `ClipboardEvent`.
pub enum EventView {
    /// The remote clipboard changed.
    FormatsAvailable {
        /// The numbers of the formats on offer.
        formats: Seq<u32>,
        /// Text is on offer.
        has_text: bool,
        /// Files are on offer.
        has_files: bool,
    },
    /// Text arrived.
    TextReceived {
        /// The text.
        text: Seq<char>,
    },
    /// A request for data failed.
    RequestFailed,
    /// A file list arrived.
    FilesReceived {
        /// The files.
        files: Seq<FileInfoView>,
    },
    /// A part of a file arrived.
    FileContentReceived {
        /// The identifier of the request.
        stream_id: u32,
        /// The part.
        data: Seq<u8>,
    },
    /// The size of a file arrived.
    FileSizeReceived {
        /// The identifier of the request.
        stream_id: u32,
        /// The size in bytes.
        size: u64,
    },
    /// A file request failed.
    FileTransferFailed {
        /// The identifier of the request.
        stream_id: u32,
    },
}

impl View for ClipboardEvent {
    type V = EventView;

    open spec fn view(&self) -> EventView {
        match *self {
            ClipboardEvent::FormatsAvailable { formats, has_text, has_files } => {
                EventView::FormatsAvailable { formats: formats@, has_text, has_files }
            },
            ClipboardEvent::TextReceived { text } => EventView::TextReceived { text: text@ },
            ClipboardEvent::RequestFailed => EventView::RequestFailed,
            ClipboardEvent::FilesReceived { files } => {
                EventView::FilesReceived { files: views::seq_view(files@) }
            },
            ClipboardEvent::FileContentReceived { stream_id, data } => {
                EventView::FileContentReceived { stream_id, data: data@ }
            },
            ClipboardEvent::FileSizeReceived { stream_id, size } => {
                EventView::FileSizeReceived { stream_id, size }
            },
            ClipboardEvent::FileTransferFailed { stream_id } => {
                EventView::FileTransferFailed { stream_id }
            },
        }
    }
}

/// A file on the remote clipboard.
#[derive(Debug, Clone)]
pub struct FileInfo {
    /// Its name.
    pub name: String,
    /// Its size in bytes, where it is known.
    pub size: Option<u64>,
    /// Whether it is a directory.
    pub is_directory: bool,
}

/// The view of `FileInfo`.
pub struct FileInfoView {
    /// Its name.
    pub name: Seq<char>,
    /// Its size in bytes, where it is known.
    pub size: Option<u64>,
    /// Whether it is a directory.
    pub is_directory: bool,
}

impl View for FileInfo {
    type V = FileInfoView;

    open spec fn view(&self) -> FileInfoView {
        FileInfoView { name: self.name@, size: self.size, is_directory: self.is_directory }
    }
}

/// What a descriptor tells of a file.
pub open spec fn info_of(d: DescriptorView) -> FileInfoView {
    FileInfoView {
        name: d.file_name,
        size: if d.flags & 0x0040 != 0 {
            Some(d.file_size)
        } else {
            None
        },
        is_directory: d.directory(),
    }
}

impl FileInfo {
    /// What a descriptor tells of a file.
    pub fn of_descriptor(d: &FileDescriptorW) -> (f: FileInfo)
        ensures
            f@ == info_of(d@),
    {
        FileInfo {
            name: d.file_name.clone(),
            size: if d.has_file_size() {
                Some(d.file_size)
            } else {
                None
            },
            is_directory: d.is_directory(),
        }
    }
}

/// A local file that is offered to the server.
#[derive(Debug)]
pub struct LocalFileInfo {
    /// Where it is.
    pub path: PathBuf,
    /// Its name.
    pub name: String,
    /// Its size in bytes.
    pub size: u64,
    /// When it was last modified, as Unix time.
    pub modified_time: u64,
    /// Whether it is a directory.
    pub is_directory: bool,
}

/// The view of `LocalFileInfo`.
pub struct LocalFileView {
    /// Where it is.
    pub path: PathBuf,
    /// Its name.
    pub name: Seq<char>,
    /// Its size in bytes.
    pub size: u64,
    /// When it was last modified, as Unix time.
    pub modified_time: u64,
    /// Whether it is a directory.
    pub is_directory: bool,
}

impl View for LocalFileInfo {
    type V = LocalFileView;

    open spec fn view(&self) -> LocalFileView {
        LocalFileView {
            path: self.path,
            name: self.name@,
            size: self.size,
            modified_time: self.modified_time,
            is_directory: self.is_directory,
        }
    }
}

impl Clone for LocalFileInfo {
    fn clone(&self) -> (f: LocalFileInfo)
        ensures
            f@ == self@,
    {
        LocalFileInfo {
            path: self.path.clone(),
            name: self.name.clone(),
            size: self.size,
            modified_time: self.modified_time,
            is_directory: self.is_directory,
        }
    }
}

impl LocalFileInfo {
    /// A local file from what its metadata told. There is none where its name
    /// is not known as text; an unknown time of modification counts as zero.
    pub fn from_metadata(
        path: PathBuf,
        name: Option<String>,
        size: u64,
        modified_time: Option<u64>,
        is_directory: bool,
    ) -> (f: Option<LocalFileInfo>)
        ensures
            f is Some <==> name is Some,
            f matches Some(i) ==> i@ == (LocalFileView {
                path,
                name: name->0@,
                size,
                modified_time: match modified_time {
                    Some(t) => t,
                    None => 0,
                },
                is_directory,
            }),
    {
        match name {
            Some(name) => Some(
                LocalFileInfo {
                    path,
                    name,
                    size,
                    modified_time: match modified_time {
                        Some(t) => t,
                        None => 0,
                    },
                    is_directory,
                },
            ),
            None => None,
        }
    }
}

/// The descriptor under which a local file is offered.
pub open spec fn descriptor_of(f: LocalFileView) -> DescriptorView {
    DescriptorView {
        flags: 0x0064,
        file_attributes: if f.is_directory {
            0x0010
        } else {
            0x0080
        },
        creation_time: 0,
        last_access_time: 0,
        last_write_time: pdu::filetime_of(f.modified_time),
        file_size: f.size,
        file_name: f.name,
    }
}

/// How far the channel is set up.
#[derive(Debug, Clone, Copy, PartialEq, Eq, Structural)]
pub enum CliprdrState {
    /// The server has not announced its clipboard.
    Initial,
    /// Capabilities are exchanged.
    Ready,
    /// The channel is closed.
    Closed,
}

/// A part of a local file that has to be read for the server.
#[derive(Debug, Clone, Copy, PartialEq, Eq, Structural)]
pub struct FileRead {
    /// The identifier of the server's request.
    pub stream_id: u32,
    /// The place of the file among the local files.
    pub file_index: u32,
    /// Where the part starts.
    pub offset: u64,
    /// How many bytes it has at most.
    pub length: u32,
}

/// The handler of the clipboard channel.
pub struct YardCliprdrHandler {
    /// How far the channel is set up.
    pub state: CliprdrState,
    /// The number of the channel.
    pub channel_id: Option<u32>,
    /// Whether format names are long.
    pub use_long_format_names: bool,
    /// Whether the server serves files.
    pub file_clipboard_enabled: bool,
    /// The formats on the server's clipboard.
    pub server_formats: Vec<ClipboardFormat>,
    /// Whether the clipboard is shared at all.
    pub enabled: bool,
    /// The format whose data was asked for.
    pub pending_format_request: Option<u32>,
    /// Text that arrived and was not taken yet.
    pub pending_clipboard_data: Option<String>,
    /// Whether somebody listens to the events.
    pub events_enabled: bool,
    /// Events that were not taken yet.
    pub events: Vec<ClipboardEvent>,
    /// The local text on offer.
    pub local_clipboard_text: Option<String>,
    /// The server's number for file lists.
    pub file_group_descriptor_format_id: Option<u32>,
    /// The server's number for file contents.
    pub file_contents_format_id: Option<u32>,
    /// The identifier of the next file request.
    pub next_stream_id: u32,
    /// The server's file list.
    pub remote_file_list: Option<CliprdrFileList>,
    /// The local files on offer.
    pub local_clipboard_files: Option<Vec<LocalFileInfo>>,
    /// The client's number for file lists.
    pub local_file_group_descriptor_format_id: u32,
    /// The client's number for file contents.
    pub local_file_contents_format_id: u32,
    /// File parts that were not read yet.
    pub file_reads: Vec<FileRead>,
    /// The identifiers under which file parts were asked for and did not come yet.
    pub part_requests: HashSet<u32>,
}

/// The view of `YardCliprdrHandler`.
pub struct HandlerView {
    /// How far the channel is set up.
    pub state: CliprdrState,
    /// The number of the channel.
    pub channel_id: Option<u32>,
    /// Whether format names are long.
    pub long_names: bool,
    /// Whether the server serves files.
    pub file_clipboard: bool,
    /// The formats on the server's clipboard.
    pub server_formats: Seq<FormatView>,
    /// Whether the clipboard is shared at all.
    pub enabled: bool,
    /// The format whose data was asked for.
    pub pending_request: Option<u32>,
    /// Text that arrived and was not taken yet.
    pub pending_data: Option<Seq<char>>,
    /// Whether somebody listens to the events.
    pub events_enabled: bool,
    /// Events that were not taken yet.
    pub events: Seq<EventView>,
    /// The local text on offer.
    pub local_text: Option<Seq<char>>,
    /// The server's number for file lists.
    pub descriptor_id: Option<u32>,
    /// The server's number for file contents.
    pub contents_id: Option<u32>,
    /// The identifier of the next file request.
    pub next_stream_id: u32,
    /// The server's file list.
    pub remote_files: Option<Seq<DescriptorView>>,
    /// The local files on offer.
    pub local_files: Option<Seq<LocalFileView>>,
    /// The client's number for file lists.
    pub local_descriptor_id: u32,
    /// The client's number for file contents.
    pub local_contents_id: u32,
    /// File parts that were not read yet.
    pub reads: Seq<FileRead>,
    /// The identifiers under which file parts were asked for and did not come yet.
    pub parts: Set<u32>,
}

impl View for YardCliprdrHandler {
    type V = HandlerView;

    open spec fn view(&self) -> HandlerView {
        HandlerView {
            state: self.state,
            channel_id: self.channel_id,
            long_names: self.use_long_format_names,
            file_clipboard: self.file_clipboard_enabled,
            server_formats: views::seq_view(self.server_formats@),
            enabled: self.enabled,
            pending_request: self.pending_format_request,
            pending_data: views::option_view(self.pending_clipboard_data),
            events_enabled: self.events_enabled,
            events: views::seq_view(self.events@),
            local_text: views::option_view(self.local_clipboard_text),
            descriptor_id: self.file_group_descriptor_format_id,
            contents_id: self.file_contents_format_id,
            next_stream_id: self.next_stream_id,
            remote_files: views::option_view(self.remote_file_list),
            local_files: match self.local_clipboard_files {
                Some(files) => Some(views::seq_view(files@)),
                None => None,
            },
            local_descriptor_id: self.local_file_group_descriptor_format_id,
            local_contents_id: self.local_file_contents_format_id,
            reads: self.file_reads@,
            parts: self.part_requests@,
        }
    }
}

/// A message of the channel, ready to be sent.
#[derive(Debug, Clone)]
pub struct CliprdrSvcMessage {
    /// The bytes of the message.
    pub data: Vec<u8>,
}

impl View for CliprdrSvcMessage {
    type V = Seq<u8>;

    open spec fn view(&self) -> Seq<u8> {
        self.data@
    }
}

impl CliprdrSvcMessage {
    /// A message with the given bytes.
    pub fn new(data: Vec<u8>) -> (m: CliprdrSvcMessage)
        ensures
            m@ == data@,
    {
        CliprdrSvcMessage { data }
    }

    /// What the message is called.
    pub fn name(&self) -> (s: &'static str)
        ensures
            s@ == "CliprdrSvcMessage"@,
    {
        "CliprdrSvcMessage"
    }

    /// How many bytes it has.
    pub fn size(&self) -> (n: usize)
        ensures
            n == self@.len(),
    {
        self.data.len()
    }
}

/// The handler after an event: queued where somebody listens.
pub open spec fn with_event(h: HandlerView, e: EventView) -> HandlerView {
    if h.events_enabled {
        HandlerView { events: h.events.push(e), ..h }
    } else {
        h
    }
}

/// What one message from the server leads to.
pub struct Step {
    /// The handler afterwards.
    pub handler: HandlerView,
    /// The messages to send.
    pub messages: Seq<Seq<u8>>,
}

/// The last format with the given name.
pub open spec fn last_named(formats: Seq<FormatView>, name: Seq<char>) -> Option<u32>
    decreases formats.len(),
{
    if formats.len() == 0 {
        None
    } else if formats.last().name == name {
        Some(formats.last().id)
    } else {
        last_named(formats.drop_last(), name)
    }
}

/// A format with the given number is among the formats.
pub open spec fn has_format(formats: Seq<FormatView>, id: u32) -> bool {
    exists|i: int| 0 <= i < formats.len() && (#[trigger] formats[i]).id == id
}

/// Which data is fetched at once when the remote clipboard changes: the file
/// list before text, Unicode text before ANSI text, nothing where nobody
/// listens.
pub open spec fn automatic_request(h: HandlerView, formats: Seq<FormatView>) -> Option<u32> {
    if !h.events_enabled {
        None
    } else if last_named(formats, "FileGroupDescriptorW"@) is Some {
        last_named(formats, "FileGroupDescriptorW"@)
    } else if has_format(formats, 13) {
        Some(13)
    } else if has_format(formats, 1) {
        Some(1)
    } else {
        None
    }
}

/// The server's clipboard is ready: answer with the capabilities and with an
/// empty format list.
pub open spec fn on_monitor_ready(h: HandlerView) -> Step {
    Step {
        handler: HandlerView { state: CliprdrState::Ready, ..h },
        messages: seq![
            pdu::framed(MessageType::ClipCaps, 0, pdu::caps_payload(0x0000_0006)),
            pdu::framed(MessageType::FormatList, 0, Seq::empty()),
        ],
    }
}

/// The server's capabilities.
pub open spec fn on_clip_caps(h: HandlerView, flags: u32) -> Step {
    Step {
        handler: HandlerView {
            long_names: pdu::GeneralCapabilityFlags(flags).long_names(),
            file_clipboard: pdu::GeneralCapabilityFlags(flags).file_streams(),
            ..h
        },
        messages: Seq::empty(),
    }
}

/// The remote clipboard changed: what was on offer locally is dropped, the
/// formats are stored, the list is accepted, and data is fetched.
pub open spec fn on_format_list(h: HandlerView, formats: Seq<FormatView>) -> Step {
    let request = automatic_request(h, formats);
    let stored = HandlerView {
        local_text: None,
        local_files: None,
        server_formats: formats,
        descriptor_id: last_named(formats, "FileGroupDescriptorW"@),
        contents_id: last_named(formats, "FileContents"@),
        remote_files: None,
        pending_request: if request is Some {
            request
        } else {
            h.pending_request
        },
        ..h
    };
    let event = EventView::FormatsAvailable {
        formats: Seq::new(formats.len(), |i: int| formats[i].id),
        has_text: has_format(formats, 13) || has_format(formats, 1),
        has_files: last_named(formats, "FileGroupDescriptorW"@) is Some,
    };
    let accepted = pdu::framed(MessageType::FormatListResponse, 0x0001, Seq::empty());
    Step {
        handler: with_event(stored, event),
        messages: match request {
            Some(id) => seq![
                accepted,
                pdu::framed(MessageType::FormatDataRequest, 0, bytes::le32(id)),
            ],
            None => seq![accepted],
        },
    }
}

/// The ASCII characters of a text, as bytes.
pub open spec fn ascii_bytes(s: Seq<char>) -> Seq<u8>
    decreases s.len(),
{
    if s.len() == 0 {
        Seq::empty()
    } else if (s.last() as u32) < 128 {
        ascii_bytes(s.drop_last()).push(s.last() as u8)
    } else {
        ascii_bytes(s.drop_last())
    }
}

/// A text as UTF-16 bytes with a terminator.
pub open spec fn terminated_utf16(s: Seq<char>) -> Seq<u8> {
    utf16::unit_bytes(utf16::encode_utf16(s)) + bytes::le16(0)
}

/// The descriptors of local files.
pub open spec fn descriptors_of(files: Seq<LocalFileView>) -> Seq<DescriptorView> {
    Seq::new(files.len(), |i: int| descriptor_of(files[i]))
}

/// What is served for a data request.
pub open spec fn served_data(h: HandlerView, id: u32) -> DataResponseView {
    let failed = DataResponseView { success: false, data: Seq::empty() };
    if id == h.local_descriptor_id {
        match h.local_files {
            Some(files) => DataResponseView {
                success: true,
                data: pdu::file_list_bytes(descriptors_of(files)),
            },
            None => failed,
        }
    } else {
        match h.local_text {
            Some(s) => if id == 13 {
                DataResponseView { success: true, data: terminated_utf16(s) }
            } else if id == 1 {
                DataResponseView { success: true, data: ascii_bytes(s).push(0) }
            } else {
                failed
            },
            None => failed,
        }
    }
}

/// The message with an answer to a data request.
pub open spec fn data_response_bytes(r: DataResponseView) -> Seq<u8> {
    pdu::framed(MessageType::FormatDataResponse, pdu::response_flags(r.success), r.data)
}

/// The server asks for data.
pub open spec fn on_data_request(h: HandlerView, id: u32) -> Step {
    Step { handler: h, messages: seq![data_response_bytes(served_data(h, id))] }
}

/// The text of an answer: ANSI text where that was asked for, else Unicode text, or
/// ANSI text where it is no Unicode text.
pub open spec fn text_answer(asked: Option<u32>, r: DataResponseView) -> Option<Seq<char>> {
    if asked == Some(1u32) || r.unicode_text() is None {
        r.ansi_text()
    } else {
        r.unicode_text()
    }
}

/// What the data of an answer is taken for, before the event is queued.
pub open spec fn data_event(h: HandlerView, r: DataResponseView) -> (
    Option<Seq<DescriptorView>>,
    Option<Seq<char>>,
    EventView,
) {
    if !r.success {
        (h.remote_files, h.pending_data, EventView::RequestFailed)
    } else if h.pending_request == h.descriptor_id {
        match pdu::decode_file_list(r.data) {
            Ok(files) => (
                Some(files),
                h.pending_data,
                EventView::FilesReceived {
                    files: Seq::new(files.len(), |i: int| info_of(files[i])),
                },
            ),
            Err(_) => (h.remote_files, h.pending_data, EventView::RequestFailed),
        }
    } else {
        match text_answer(h.pending_request, r) {
            Some(s) => (h.remote_files, Some(s), EventView::TextReceived { text: s }),
            None => (h.remote_files, h.pending_data, EventView::RequestFailed),
        }
    }
}

/// Data arrived: a file list where the format of the server's file lists was asked
/// for, or where nothing was and the server has no such format; else text.
pub open spec fn on_data_response(h: HandlerView, r: DataResponseView) -> Step {
    let (remote_files, pending_data, event) = data_event(h, r);
    Step {
        handler: with_event(
            HandlerView { remote_files, pending_data, pending_request: None, ..h },
            event,
        ),
        messages: Seq::empty(),
    }
}

/// The message with an answer to a file request.
pub open spec fn contents_response_bytes(r: ContentsResponseView) -> Seq<u8> {
    pdu::framed(
        MessageType::FileContentsResponse,
        pdu::response_flags(r.success),
        bytes::le32(r.stream_id) + r.data,
    )
}

/// The server asks for the size or a part of a file: the size is answered at
/// once, a part is queued to be read, an unknown file is refused.
pub open spec fn on_contents_request(h: HandlerView, r: FileContentsRequestPdu) -> Step {
    let refused = ContentsResponseView {
        success: false,
        stream_id: r.stream_id,
        data: Seq::empty(),
    };
    match h.local_files {
        Some(files) if r.lindex < files.len() => match r.flags {
            FileContentsFlags::Size => Step {
                handler: h,
                messages: seq![
                    contents_response_bytes(
                        ContentsResponseView {
                            success: true,
                            stream_id: r.stream_id,
                            data: bytes::le64(files[r.lindex as int].size),
                        },
                    ),
                ],
            },
            FileContentsFlags::Range => Step {
                handler: HandlerView {
                    reads: h.reads.push(
                        FileRead {
                            stream_id: r.stream_id,
                            file_index: r.lindex,
                            offset: r.position(),
                            length: r.cb_requested,
                        },
                    ),
                    ..h
                },
                messages: Seq::empty(),
            },
        },
        _ => Step { handler: h, messages: seq![contents_response_bytes(refused)] },
    }
}

/// What an answer to a file request tells: of eight bytes the size of the file,
/// unless a part of it was asked for.
pub open spec fn contents_event(h: HandlerView, r: ContentsResponseView) -> EventView {
    if !r.success {
        EventView::FileTransferFailed { stream_id: r.stream_id }
    } else if r.file_size() is Some && !h.parts.contains(r.stream_id) {
        EventView::FileSizeReceived { stream_id: r.stream_id, size: r.file_size()->0 }
    } else {
        EventView::FileContentReceived { stream_id: r.stream_id, data: r.data }
    }
}

/// The server answered a file request.
pub open spec fn on_contents_response(h: HandlerView, r: ContentsResponseView) -> Step {
    Step {
        handler: with_event(
            HandlerView { parts: h.parts.remove(r.stream_id), ..h },
            contents_event(h, r),
        ),
        messages: Seq::empty(),
    }
}

/// What one message leads to.
pub open spec fn on_pdu(h: HandlerView, p: PduView) -> Step {
    match p {
        PduView::MonitorReady => on_monitor_ready(h),
        PduView::ClipCaps(flags) => on_clip_caps(h, flags),
        PduView::FormatList(formats) => on_format_list(h, formats),
        PduView::FormatListResponse(_) => Step { handler: h, messages: Seq::empty() },
        PduView::FormatDataRequest(id) => on_data_request(h, id),
        PduView::FormatDataResponse(r) => on_data_response(h, r),
        PduView::FileContentsRequest(r) => on_contents_request(h, r),
        PduView::FileContentsResponse(r) => on_contents_response(h, r),
    }
}

/// What the bytes of one message lead to. A disabled handler ignores every
/// message, and every handler an empty one; where a message is not understood,
/// the handler stays as it was.
pub open spec fn on_payload(h: HandlerView, payload: Seq<u8>) -> Result<Step, CliprdrErrorView> {
    if !h.enabled || payload.len() == 0 {
        Ok(Step { handler: h, messages: Seq::empty() })
    } else {
        match pdu::decode_pdu(payload, h.long_names) {
            Ok(p) => Ok(on_pdu(h, p)),
            Err(e) => Err(e),
        }
    }
}

/// A fresh handler.
pub open spec fn fresh_handler(enabled: bool, events_enabled: bool) -> HandlerView {
    HandlerView {
        state: if enabled {
            CliprdrState::Initial
        } else {
            CliprdrState::Closed
        },
        channel_id: None,
        long_names: enabled,
        file_clipboard: false,
        server_formats: Seq::empty(),
        enabled,
        pending_request: None,
        pending_data: None,
        events_enabled,
        events: Seq::empty(),
        local_text: None,
        descriptor_id: None,
        contents_id: None,
        next_stream_id: 1,
        remote_files: None,
        local_files: None,
        local_descriptor_id: 0xC100,
        local_contents_id: 0xC101,
        reads: Seq::empty(),
        parts: Set::empty(),
    }
}

/// One message.
fn one_message(data: Vec<u8>) -> (m: Vec<CliprdrSvcMessage>)
    ensures
        views::seq_view(m@) == seq![data@],
{
    let mut m: Vec<CliprdrSvcMessage> = Vec::new();
    m.push(CliprdrSvcMessage::new(data));
    assert(views::seq_view(m@) == seq![data@]);
    m
}

/// No message.
fn no_messages() -> (m: Vec<CliprdrSvcMessage>)
    ensures
        views::seq_view(m@) == Seq::<Seq<u8>>::empty(),
{
    let m: Vec<CliprdrSvcMessage> = Vec::new();
    assert(views::seq_view(m@) == Seq::<Seq<u8>>::empty());
    m
}

/// Tests whether a format with the given number is among the formats.
fn offers_format(formats: &Vec<ClipboardFormat>, id: u32) -> (b: bool)
    ensures
        b == has_format(views::seq_view(formats@), id),
{
    let mut i: usize = 0;
    while i < formats.len()
        invariant
            i <= formats@.len(),
            forall|j: int| 0 <= j < i ==> (#[trigger] formats@[j]).id != id,
        decreases formats@.len() - i,
    {
        if formats[i].id == id {
            assert(views::seq_view(formats@)[i as int].id == id);
            return true;
        }
        i = i + 1;
    }
    assert forall|j: int| 0 <= j < formats@.len() implies (#[trigger] views::seq_view(
        formats@,
    )[j]).id != id by {
        assert(formats@[j].id != id);
    }
    false
}

/// The last format with the given name.
fn find_named(formats: &Vec<ClipboardFormat>, name: &str) -> (r: Option<u32>)
    ensures
        r == last_named(views::seq_view(formats@), name@),
{
    let ghost all = views::seq_view(formats@);
    let mut n: usize = formats.len();
    assert(all.take(all.len() as int) == all);
    while n > 0
        invariant
            n <= formats@.len(),
            all == views::seq_view(formats@),
            last_named(all.take(n as int), name@) == last_named(all, name@),
        decreases n,
    {
        let ghost part = all.take(n as int);
        assert(part.last() == formats@[n - 1]@);
        assert(part.drop_last() == all.take(n - 1));
        if text::same_text(formats[n - 1].name.as_str(), name) {
            return Some(formats[n - 1].id);
        }
        n = n - 1;
    }
    None
}

/// The numbers of the formats.
fn format_ids(formats: &Vec<ClipboardFormat>) -> (ids: Vec<u32>)
    ensures
        ids@ == Seq::new(formats@.len(), |i: int| views::seq_view(formats@)[i].id),
{
    let mut ids: Vec<u32> = Vec::new();
    let mut i: usize = 0;
    while i < formats.len()
        invariant
            i <= formats@.len(),
            ids@.len() == i,
            forall|j: int| 0 <= j < i ==> ids@[j] == (#[trigger] formats@[j]).id,
        decreases formats@.len() - i,
    {
        ids.push(formats[i].id);
        i = i + 1;
    }
    assert(ids@ == Seq::new(formats@.len(), |i: int| views::seq_view(formats@)[i].id));
    ids
}

/// What the descriptors tell of the files.
fn file_infos(files: &Vec<FileDescriptorW>) -> (infos: Vec<FileInfo>)
    ensures
        views::seq_view(infos@) == Seq::new(files@.len(), |i: int| info_of(files@[i]@)),
{
    let mut infos: Vec<FileInfo> = Vec::new();
    let mut i: usize = 0;
    while i < files.len()
        invariant
            i <= files@.len(),
            infos@.len() == i,
            forall|j: int| 0 <= j < i ==> (#[trigger] infos@[j])@ == info_of(files@[j]@),
        decreases files@.len() - i,
    {
        infos.push(FileInfo::of_descriptor(&files[i]));
        i = i + 1;
    }
    assert(views::seq_view(infos@) == Seq::new(files@.len(), |i: int| info_of(files@[i]@)));
    infos
}

/// The file list of local files, as bytes.
fn local_file_list(files: &Vec<LocalFileInfo>) -> (data: Vec<u8>)
    ensures
        data@ == pdu::file_list_bytes(descriptors_of(views::seq_view(files@))),
{
    let mut descriptors: Vec<FileDescriptorW> = Vec::new();
    let mut i: usize = 0;
    while i < files.len()
        invariant
            i <= files@.len(),
            descriptors@.len() == i,
            forall|j: int|
                0 <= j < i ==> (#[trigger] descriptors@[j])@ == descriptor_of(files@[j]@),
        decreases files@.len() - i,
    {
        let f = &files[i];
        descriptors.push(
            FileDescriptorW::from_local_file(
                f.name.clone(),
                f.size,
                f.modified_time,
                f.is_directory,
            ),
        );
        i = i + 1;
    }
    let list = CliprdrFileList::new(descriptors);
    assert(list@ == descriptors_of(views::seq_view(files@)));
    list.encode()
}

/// The ASCII characters of a text, as bytes.
fn ascii_part(s: &str) -> (data: Vec<u8>)
    ensures
        data@ == ascii_bytes(s@),
{
    let mut data: Vec<u8> = Vec::new();
    for c in iter: s.chars()
        invariant
            iter.seq() == s@,
            data@ == ascii_bytes(s@.take(iter.index() as int)),
    {
        proof {
            let longer = s@.take(iter.index() + 1);
            assert(longer.drop_last() == s@.take(iter.index() as int));
            assert(longer.last() == c);
            utf16::lemma_char_range(c);
        }
        if (c as u32) < ASCII_MAX {
            data.push(c as u8);
        }
    }
    assert(s@.take(s@.len() as int) == s@);
    data
}

impl YardCliprdrHandler {
    /// A handler that nobody listens to.
    pub fn new() -> (h: YardCliprdrHandler)
        ensures
            h@ == fresh_handler(true, false),
    {
        YardCliprdrHandler::fresh(true, false)
    }

    /// A handler that queues events.
    pub fn with_event_channel() -> (h: YardCliprdrHandler)
        ensures
            h@ == fresh_handler(true, true),
    {
        YardCliprdrHandler::fresh(true, true)
    }

    /// A handler that does nothing.
    pub fn disabled() -> (h: YardCliprdrHandler)
        ensures
            h@ == fresh_handler(false, false),
    {
        YardCliprdrHandler::fresh(false, false)
    }

    /// A fresh handler.
    fn fresh(enabled: bool, events_enabled: bool) -> (h: YardCliprdrHandler)
        ensures
            h@ == fresh_handler(enabled, events_enabled),
    {
        let h = YardCliprdrHandler {
            state: if enabled {
                CliprdrState::Initial
            } else {
                CliprdrState::Closed
            },
            channel_id: None,
            use_long_format_names: enabled,
            file_clipboard_enabled: false,
            server_formats: Vec::new(),
            enabled,
            pending_format_request: None,
            pending_clipboard_data: None,
            events_enabled,
            events: Vec::new(),
            local_clipboard_text: None,
            file_group_descriptor_format_id: None,
            file_contents_format_id: None,
            next_stream_id: 1,
            remote_file_list: None,
            local_clipboard_files: None,
            local_file_group_descriptor_format_id: 0xC100,
            local_file_contents_format_id: 0xC101,
            file_reads: Vec::new(),
            part_requests: HashSet::new(),
        };
        assert(views::seq_view(h.server_formats@) == Seq::<FormatView>::empty());
        assert(views::seq_view(h.events@) == Seq::<EventView>::empty());
        h
    }

    /// Queues an event where somebody listens.
    fn send_event(&mut self, event: ClipboardEvent)
        ensures
            final(self)@ == with_event(old(self)@, event@),
    {
        if self.events_enabled {
            proof {
                views::lemma_seq_view_push(self.events@, event);
            }
            self.events.push(event);
        }
    }

    /// Takes the queued events.
    pub fn take_events(&mut self) -> (events: Vec<ClipboardEvent>)
        ensures
            views::seq_view(events@) == old(self)@.events,
            final(self)@ == (HandlerView { events: Seq::empty(), ..old(self)@ }),
    {
        let mut events: Vec<ClipboardEvent> = Vec::new();
        events.append(&mut self.events);
        assert(events@ == old(self).events@);
        assert(views::seq_view(self.events@) == Seq::<EventView>::empty());
        events
    }

    /// Takes the file parts that are to be read.
    pub fn take_file_reads(&mut self) -> (reads: Vec<FileRead>)
        ensures
            reads@ == old(self)@.reads,
            final(self)@ == (HandlerView { reads: Seq::empty(), ..old(self)@ }),
    {
        let mut reads: Vec<FileRead> = Vec::new();
        reads.append(&mut self.file_reads);
        assert(reads@ == old(self).file_reads@);
        reads
    }

    /// The name of the channel.
    pub fn channel_name(&self) -> (s: &'static str)
        ensures
            s@ == "cliprdr"@,
    {
        CLIPRDR_CHANNEL_NAME
    }

    /// Tests whether the clipboard is shared at all.
    pub fn is_enabled(&self) -> (b: bool)
        ensures
            b == self@.enabled,
    {
        self.enabled
    }

    /// The formats on the server's clipboard.
    pub fn server_formats(&self) -> (formats: &[ClipboardFormat])
        ensures
            views::seq_view(formats@) == self@.server_formats,
    {
        self.server_formats.as_slice()
    }

    /// The channel is started.
    pub fn start(&mut self) -> (messages: Vec<CliprdrSvcMessage>)
        ensures
            final(self)@ == (HandlerView { state: CliprdrState::Initial, ..old(self)@ }),
            messages@.len() == 0,
    {
        self.state = CliprdrState::Initial;
        Vec::new()
    }

    /// The server's clipboard is ready.
    pub fn handle_monitor_ready(&mut self) -> (messages: Vec<CliprdrSvcMessage>)
        ensures
            (Step { handler: final(self)@, messages: views::seq_view(messages@) })
                == on_monitor_ready(old(self)@),
    {
        let caps = ClipCapsPdu::default_client();
        let list = FormatListPdu::empty();
        self.state = CliprdrState::Ready;
        let mut messages: Vec<CliprdrSvcMessage> = Vec::new();
        messages.push(CliprdrSvcMessage::new(caps.encode()));
        messages.push(CliprdrSvcMessage::new(list.encode()));
        assert(views::seq_view(messages@) == on_monitor_ready(old(self)@).messages);
        messages
    }

    /// The server's capabilities.
    pub fn handle_clip_caps(&mut self, caps: &ClipCapsPdu) -> (messages: Vec<CliprdrSvcMessage>)
        ensures
            (Step { handler: final(self)@, messages: views::seq_view(messages@) }) == on_clip_caps(
                old(self)@,
                caps@,
            ),
    {
        self.use_long_format_names = caps.general_flags.use_long_format_names();
        self.file_clipboard_enabled = caps.general_flags.stream_fileclip_enabled();
        no_messages()
    }

    /// The remote clipboard changed.
    pub fn handle_format_list(&mut self, format_list: &FormatListPdu) -> (messages: Vec<
        CliprdrSvcMessage,
    >)
        ensures
            (Step { handler: final(self)@, messages: views::seq_view(messages@) })
                == on_format_list(old(self)@, format_list@),
    {
        let ghost formats = format_list@;
        let ghost result = on_format_list(self@, formats);
        self.local_clipboard_text = None;
        self.local_clipboard_files = None;
        self.server_formats = pdu::copy_formats(&format_list.formats);
        self.file_group_descriptor_format_id =
        find_named(&self.server_formats, "FileGroupDescriptorW");
        self.file_contents_format_id = find_named(&self.server_formats, "FileContents");
        self.remote_file_list = None;
        let has_unicode = offers_format(&self.server_formats, StandardFormat::UnicodeText.as_u32());
        let has_ansi = offers_format(&self.server_formats, StandardFormat::Text.as_u32());
        let has_text = has_unicode || has_ansi;
        let has_files = self.file_group_descriptor_format_id.is_some();
        let ids = format_ids(&self.server_formats);
        let mut messages = one_message(FormatListResponsePdu::ok().encode());
        let request: Option<u32> = if !self.events_enabled {
            None
        } else if has_files {
            self.file_group_descriptor_format_id
        } else if has_unicode {
            Some(StandardFormat::UnicodeText.as_u32())
        } else if has_ansi {
            Some(StandardFormat::Text.as_u32())
        } else {
            None
        };
        assert(request == automatic_request(old(self)@, formats));
        assert(ids@ == Seq::new(formats.len(), |i: int| formats[i].id));
        if let Some(id) = request {
            self.pending_format_request = Some(id);
            let message = CliprdrSvcMessage::new(FormatDataRequestPdu::new(id).encode());
            proof {
                views::lemma_seq_view_push(messages@, message);
            }
            messages.push(message);
        }
        self.send_event(ClipboardEvent::FormatsAvailable { formats: ids, has_text, has_files });
        assert(views::seq_view(messages@) == result.messages);
        assert(self@.events == result.handler.events);
        messages
    }

    /// The server answered the client's format list: nothing depends on it.
    pub fn handle_format_list_response(&mut self, _response: &FormatListResponsePdu) -> (messages:
        Vec<CliprdrSvcMessage>)
        ensures
            final(self)@ == old(self)@,
            views::seq_view(messages@) == Seq::<Seq<u8>>::empty(),
    {
        no_messages()
    }

    /// The server asks for data.
    pub fn handle_format_data_request(&mut self, request: &FormatDataRequestPdu) -> (messages: Vec<
        CliprdrSvcMessage,
    >)
        ensures
            (Step { handler: final(self)@, messages: views::seq_view(messages@) })
                == on_data_request(old(self)@, request@),
    {
        let id: u32 = request.requested_format_id;
        if id == self.local_file_group_descriptor_format_id {
            return self.handle_file_list_request();
        }
        let response = match &self.local_clipboard_text {
            Some(t) => {
                if id == StandardFormat::UnicodeText.as_u32() {
                    FormatDataResponsePdu::ok(
                        YardCliprdrHandler::utf8_to_utf16le_with_null(t.as_str()),
                    )
                } else if id == StandardFormat::Text.as_u32() {
                    let mut data = ascii_part(t.as_str());
                    data.push(0);
                    FormatDataResponsePdu::ok(data)
                } else {
                    FormatDataResponsePdu::fail()
                }
            },
            None => FormatDataResponsePdu::fail(),
        };
        assert(response@ == served_data(self@, id));
        one_message(response.encode())
    }

    /// The server asks for the local file list.
    fn handle_file_list_request(&self) -> (messages: Vec<CliprdrSvcMessage>)
        ensures
            views::seq_view(messages@) == seq![
                data_response_bytes(served_data(self@, self@.local_descriptor_id)),
            ],
    {
        let response = match &self.local_clipboard_files {
            Some(files) => FormatDataResponsePdu::ok(local_file_list(files)),
            None => FormatDataResponsePdu::fail(),
        };
        one_message(response.encode())
    }

    /// A text as UTF-16 bytes with a terminator.
    pub fn utf8_to_utf16le_with_null(s: &str) -> (data: Vec<u8>)
        ensures
            data@ == terminated_utf16(s@),
    {
        let units = utf16::to_units(s);
        let mut data: Vec<u8> = Vec::new();
        utf16::push_units(&mut data, units.as_slice());
        bytes::push_u16(&mut data, 0);
        assert(data@ == terminated_utf16(s@));
        data
    }

    /// Data arrived.
    pub fn handle_format_data_response(&mut self, response: &FormatDataResponsePdu) -> (messages:
        Vec<CliprdrSvcMessage>)
        ensures
            (Step { handler: final(self)@, messages: views::seq_view(messages@) })
                == on_data_response(old(self)@, response@),
    {
        let pending = self.pending_format_request;
        self.pending_format_request = None;
        let is_file_list = match (pending, self.file_group_descriptor_format_id) {
            (Some(a), Some(b)) => a == b,
            (None, None) => true,
            _ => false,
        };
        if !response.success {
            self.send_event(ClipboardEvent::RequestFailed);
        } else if is_file_list {
            match CliprdrFileList::decode(response.data.as_slice()) {
                Ok(list) => {
                    let files = file_infos(&list.files);
                    assert(views::seq_view(files@) == Seq::new(
                        list@.len(),
                        |i: int| info_of(list@[i]),
                    ));
                    self.remote_file_list = Some(list);
                    self.send_event(ClipboardEvent::FilesReceived { files });
                },
                Err(_) => {
                    self.send_event(ClipboardEvent::RequestFailed);
                },
            }
        } else {
            let is_ansi = match pending {
                Some(id) => id == StandardFormat::Text.as_u32(),
                None => false,
            };
            let unicode = if is_ansi {
                None
            } else {
                response.as_utf8_from_unicode()
            };
            let decoded = match unicode {
                Some(s) => Some(s),
                None => response.as_utf8_from_ansi(),
            };
            match decoded {
                Some(s) => {
                    self.pending_clipboard_data = Some(s.clone());
                    self.send_event(ClipboardEvent::TextReceived { text: s });
                },
                None => {
                    self.send_event(ClipboardEvent::RequestFailed);
                },
            }
        }
        no_messages()
    }

    /// The server asks for the size or a part of a local file.
    pub fn handle_file_contents_request(&mut self, request: &FileContentsRequestPdu) -> (messages:
        Vec<CliprdrSvcMessage>)
        ensures
            (Step { handler: final(self)@, messages: views::seq_view(messages@) })
                == on_contents_request(old(self)@, *request),
    {
        let served = match &self.local_clipboard_files {
            Some(files) => {
                if (request.lindex as u64) < files.len() as u64 {
                    Some(self.serve_file_content(request, &files[request.lindex as usize]))
                } else {
                    None
                }
            },
            None => None,
        };
        match served {
            Some(ServedContent::Response(response)) => one_message(response.encode()),
            Some(ServedContent::Read(read)) => {
                self.file_reads.push(read);
                no_messages()
            },
            None => one_message(FileContentsResponsePdu::fail(request.stream_id).encode()),
        }
    }

    /// Serves a file request for one of the local files: the size at once, a part
    /// after it was read.
    pub fn serve_file_content(
        &self,
        request: &FileContentsRequestPdu,
        file_info: &LocalFileInfo,
    ) -> (s: ServedContent)
        ensures
            match request.flags {
                FileContentsFlags::Size => s matches ServedContent::Response(r) && r@ == (
                ContentsResponseView {
                    success: true,
                    stream_id: request.stream_id,
                    data: bytes::le64(file_info.size),
                }),
                FileContentsFlags::Range => s == ServedContent::Read(
                    FileRead {
                        stream_id: request.stream_id,
                        file_index: request.lindex,
                        offset: request.position(),
                        length: request.cb_requested,
                    },
                ),
            },
    {
        match request.flags {
            FileContentsFlags::Size => {
                let mut data: Vec<u8> = Vec::new();
                bytes::push_u64(&mut data, file_info.size);
                assert(data@ == bytes::le64(file_info.size));
                ServedContent::Response(FileContentsResponsePdu::ok(request.stream_id, data))
            },
            FileContentsFlags::Range => ServedContent::Read(
                FileRead {
                    stream_id: request.stream_id,
                    file_index: request.lindex,
                    offset: request.offset(),
                    length: request.cb_requested,
                },
            ),
        }
    }

    /// The server answered a file request.
    pub fn handle_file_contents_response(&mut self, response: &FileContentsResponsePdu) -> (messages:
        Vec<CliprdrSvcMessage>)
        ensures
            (Step { handler: final(self)@, messages: views::seq_view(messages@) })
                == on_contents_response(old(self)@, response@),
    {
        broadcast use vstd::std_specs::hash::group_hash_axioms;

        let stream_id: u32 = response.stream_id;
        let is_part = self.part_requests.remove(&stream_id);
        if !response.success {
            self.send_event(ClipboardEvent::FileTransferFailed { stream_id });
        } else {
            let size = if is_part {
                None
            } else {
                response.as_file_size()
            };
            match size {
                Some(size) => {
                    self.send_event(ClipboardEvent::FileSizeReceived { stream_id, size });
                },
                None => {
                    let data = bytes::copy_bytes(response.data.as_slice());
                    self.send_event(ClipboardEvent::FileContentReceived { stream_id, data });
                },
            }
        }
        no_messages()
    }

    /// Handles the bytes of one message.
    pub fn process(&mut self, payload: &[u8]) -> (r: Result<Vec<CliprdrSvcMessage>, CliprdrError>)
        ensures
            r is Ok <==> on_payload(old(self)@, payload@) is Ok,
            r matches Ok(messages) ==> on_payload(old(self)@, payload@)->Ok_0 == (Step {
                handler: final(self)@,
                messages: views::seq_view(messages@),
            }),
            r matches Err(e) ==> on_payload(old(self)@, payload@)->Err_0 == e@ && final(self)@
                == old(self)@,
    {
        if !self.enabled || payload.len() == 0 {
            return Ok(no_messages());
        }
        let message = match CliprdrPdu::decode(payload, self.use_long_format_names) {
            Ok(m) => m,
            Err(e) => {
                return Err(e);
            },
        };
        let messages = match message {
            CliprdrPdu::MonitorReady(_) => self.handle_monitor_ready(),
            CliprdrPdu::ClipCaps(p) => self.handle_clip_caps(&p),
            CliprdrPdu::FormatList(p) => self.handle_format_list(&p),
            CliprdrPdu::FormatListResponse(p) => self.handle_format_list_response(&p),
            CliprdrPdu::FormatDataRequest(p) => self.handle_format_data_request(&p),
            CliprdrPdu::FormatDataResponse(p) => self.handle_format_data_response(&p),
            CliprdrPdu::FileContentsRequest(p) => self.handle_file_contents_request(&p),
            CliprdrPdu::FileContentsResponse(p) => self.handle_file_contents_response(&p),
        };
        Ok(messages)
    }
}

/// How a file request for a known file is served.
#[derive(Debug)]
pub enum ServedContent {
    /// The answer is known.
    Response(FileContentsResponsePdu),
    /// A part of the file has to be read first.
    Read(FileRead),
}

/// The message that answers a file part that was read, or could not be.
pub open spec fn read_answer(read: FileRead, data: Option<Seq<u8>>) -> Seq<u8> {
    contents_response_bytes(
        match data {
            Some(d) => ContentsResponseView { success: true, stream_id: read.stream_id, data: d },
            None => ContentsResponseView {
                success: false,
                stream_id: read.stream_id,
                data: Seq::empty(),
            },
        },
    )
}

/// The message that answers a file part that was read, or could not be.
pub fn answer_file_read(read: &FileRead, data: Option<Vec<u8>>) -> (m: CliprdrSvcMessage)
    ensures
        m@ == contents_response_bytes(
            ContentsResponseView {
                success: data is Some,
                stream_id: read.stream_id,
                data: match data {
                    Some(d) => d@,
                    None => Seq::empty(),
                },
            },
        ),
        m@ == read_answer(*read, views::option_view(data)),
{
    let response = match data {
        Some(d) => FileContentsResponsePdu::ok(read.stream_id, d),
        None => FileContentsResponsePdu::fail(read.stream_id),
    };
    CliprdrSvcMessage::new(response.encode())
}

/// The request for data in one format: only for a format on offer, once the
/// channel is ready.
pub open spec fn format_request(h: HandlerView, id: u32) -> (HandlerView, Option<Seq<u8>>) {
    if h.state == CliprdrState::Ready && has_format(h.server_formats, id) {
        (
            HandlerView { pending_request: Some(id), ..h },
            Some(pdu::framed(MessageType::FormatDataRequest, 0, bytes::le32(id))),
        )
    } else {
        (h, None)
    }
}

/// The request for text: Unicode where it is on offer, else ANSI.
pub open spec fn text_request(h: HandlerView) -> (HandlerView, Option<Seq<u8>>) {
    if has_format(h.server_formats, 13) {
        format_request(h, 13)
    } else {
        format_request(h, 1)
    }
}

/// Text is offered to the server, in place of whatever was.
pub open spec fn offer_text(h: HandlerView, s: Seq<char>) -> (HandlerView, Option<Seq<Seq<u8>>>) {
    if h.state == CliprdrState::Ready {
        (
            HandlerView { local_text: Some(s), local_files: None, ..h },
            Some(
                seq![
                    pdu::framed(
                        MessageType::FormatList,
                        0,
                        pdu::long_payload(pdu::text_format_list()),
                    ),
                ],
            ),
        )
    } else {
        (h, None)
    }
}

/// Nothing is offered to the server any more.
pub open spec fn offer_nothing(h: HandlerView) -> (HandlerView, Option<Seq<Seq<u8>>>) {
    if h.state == CliprdrState::Ready {
        (
            HandlerView { local_text: None, local_files: None, ..h },
            Some(seq![pdu::framed(MessageType::FormatList, 0, Seq::empty())]),
        )
    } else {
        (h, None)
    }
}

/// The files whose metadata could be read.
pub open spec fn readable_files(files: Seq<Option<LocalFileInfo>>) -> Seq<LocalFileView>
    decreases files.len(),
{
    if files.len() == 0 {
        Seq::empty()
    } else {
        match files.last() {
            Some(f) => readable_files(files.drop_last()).push(f@),
            None => readable_files(files.drop_last()),
        }
    }
}

/// Files are offered to the server, in place of whatever was. An empty selection
/// clears the offer; one without a readable file changes nothing.
pub open spec fn offer_files(h: HandlerView, files: Seq<Option<LocalFileInfo>>) -> (
    HandlerView,
    Option<Seq<Seq<u8>>>,
) {
    let readable = readable_files(files);
    if h.state != CliprdrState::Ready {
        (h, None)
    } else if files.len() == 0 {
        offer_nothing(h)
    } else if readable.len() == 0 {
        (h, None)
    } else {
        (
            HandlerView { local_text: None, local_files: Some(readable), ..h },
            Some(
                seq![
                    pdu::framed(
                        MessageType::FormatList,
                        0,
                        pdu::long_payload(
                            pdu::file_format_list(h.local_descriptor_id, h.local_contents_id),
                        ),
                    ),
                ],
            ),
        )
    }
}

/// A file of the server's list can be asked for.
pub open spec fn can_request_file(h: HandlerView, file_index: u32) -> bool {
    h.state == CliprdrState::Ready && h.remote_files is Some && file_index
        < h.remote_files->0.len()
}

/// The stream identifier after the given one.
pub open spec fn following_id(id: u32) -> u32 {
    if id == u32::MAX {
        0
    } else {
        (id + 1) as u32
    }
}

/// The handler after it asked for the size or a part of a file: it gave out the
/// next stream identifier.
pub open spec fn asked(h: HandlerView, flags: FileContentsFlags) -> HandlerView {
    HandlerView {
        next_stream_id: following_id(h.next_stream_id),
        parts: match flags {
            FileContentsFlags::Size => h.parts.remove(h.next_stream_id),
            FileContentsFlags::Range => h.parts.insert(h.next_stream_id),
        },
        ..h
    }
}

/// The request for the size of a file.
pub open spec fn size_request(stream_id: u32, file_index: u32) -> FileContentsRequestPdu {
    FileContentsRequestPdu {
        stream_id,
        lindex: file_index,
        flags: FileContentsFlags::Size,
        position_low: 0,
        position_high: 0,
        cb_requested: 8,
        clip_data_id: None,
    }
}

/// The request for a part of a file.
pub open spec fn part_request(
    stream_id: u32,
    file_index: u32,
    offset: u64,
    length: u32,
) -> FileContentsRequestPdu {
    FileContentsRequestPdu {
        stream_id,
        lindex: file_index,
        flags: FileContentsFlags::Range,
        position_low: bytes::low_u32(offset),
        position_high: bytes::high_u32(offset),
        cb_requested: length,
        clip_data_id: None,
    }
}

/// The message with a request for the size or a part of a file.
pub open spec fn contents_request_bytes(r: FileContentsRequestPdu) -> Seq<u8> {
    pdu::framed(MessageType::FileContentsRequest, 0, r.payload())
}

/// Optional messages, by their views.
pub open spec fn messages_view(m: Option<Vec<CliprdrSvcMessage>>) -> Option<Seq<Seq<u8>>> {
    match m {
        Some(v) => Some(views::seq_view(v@)),
        None => None,
    }
}

impl YardCliprdrHandler {
    /// Asks for data in one format.
    pub fn request_format_data(&mut self, format_id: u32) -> (r: Option<Vec<u8>>)
        ensures
            (final(self)@, views::option_view(r)) == format_request(old(self)@, format_id),
    {
        if self.state != CliprdrState::Ready {
            return None;
        }
        if !offers_format(&self.server_formats, format_id) {
            return None;
        }
        self.pending_format_request = Some(format_id);
        Some(FormatDataRequestPdu::new(format_id).encode())
    }

    /// Asks for text, in Unicode where it is on offer.
    pub fn request_text_data(&mut self) -> (r: Option<Vec<u8>>)
        ensures
            (final(self)@, views::option_view(r)) == text_request(old(self)@),
    {
        if offers_format(&self.server_formats, StandardFormat::UnicodeText.as_u32()) {
            return self.request_format_data(StandardFormat::UnicodeText.as_u32());
        }
        if offers_format(&self.server_formats, StandardFormat::Text.as_u32()) {
            return self.request_format_data(StandardFormat::Text.as_u32());
        }
        None
    }

    /// Takes the text that arrived.
    pub fn take_clipboard_data(&mut self) -> (r: Option<String>)
        ensures
            views::option_view(r) == old(self)@.pending_data,
            final(self)@ == (HandlerView { pending_data: None, ..old(self)@ }),
    {
        self.pending_clipboard_data.take()
    }

    /// Tests whether data was asked for and has not arrived.
    pub fn has_pending_request(&self) -> (b: bool)
        ensures
            b == (self@.pending_request is Some),
    {
        self.pending_format_request.is_some()
    }

    /// The local clipboard holds text now.
    pub fn set_local_clipboard_text(&mut self, text: String) -> (r: Option<Vec<CliprdrSvcMessage>>)
        ensures
            (final(self)@, messages_view(r)) == offer_text(old(self)@, text@),
    {
        if self.state != CliprdrState::Ready {
            return None;
        }
        self.local_clipboard_text = Some(text);
        self.local_clipboard_files = None;
        Some(one_message(FormatListPdu::text_formats().encode()))
    }

    /// The local clipboard holds nothing that can be shared.
    pub fn clear_local_clipboard(&mut self) -> (r: Option<Vec<CliprdrSvcMessage>>)
        ensures
            (final(self)@, messages_view(r)) == offer_nothing(old(self)@),
    {
        if self.state != CliprdrState::Ready {
            return None;
        }
        self.local_clipboard_text = None;
        self.local_clipboard_files = None;
        Some(one_message(FormatListPdu::empty().encode()))
    }

    /// The local text on offer.
    pub fn local_clipboard_text(&self) -> (t: Option<&str>)
        ensures
            t is Some <==> self@.local_text is Some,
            t matches Some(s) ==> s@ == self@.local_text->0,
    {
        match &self.local_clipboard_text {
            Some(s) => Some(s.as_str()),
            None => None,
        }
    }

    /// The local clipboard holds files now: one entry for each, none where its
    /// metadata could not be read.
    pub fn set_local_clipboard_files(&mut self, files: Vec<Option<LocalFileInfo>>) -> (r: Option<
        Vec<CliprdrSvcMessage>,
    >)
        ensures
            (final(self)@, messages_view(r)) == offer_files(old(self)@, files@),
    {
        if self.state != CliprdrState::Ready {
            return None;
        }
        if files.len() == 0 {
            return self.clear_local_clipboard();
        }
        let readable = keep_readable(files);
        if readable.len() == 0 {
            assert(views::seq_view(readable@).len() == 0);
            return None;
        }
        self.local_clipboard_files = Some(readable);
        self.local_clipboard_text = None;
        let list = FormatListPdu::file_formats(
            self.local_file_group_descriptor_format_id,
            self.local_file_contents_format_id,
        );
        Some(one_message(list.encode()))
    }

    /// The local files on offer.
    pub fn local_clipboard_files(&self) -> (f: Option<&[LocalFileInfo]>)
        ensures
            f is Some <==> self@.local_files is Some,
            f matches Some(files) ==> views::seq_view(files@) == self@.local_files->0,
    {
        match &self.local_clipboard_files {
            Some(files) => Some(files.as_slice()),
            None => None,
        }
    }

    /// The client's numbers for file lists and for file contents.
    pub fn local_file_format_ids(&self) -> (ids: (u32, u32))
        ensures
            ids == (self@.local_descriptor_id, self@.local_contents_id),
    {
        (self.local_file_group_descriptor_format_id, self.local_file_contents_format_id)
    }

    /// The server's file list.
    pub fn remote_file_list(&self) -> (l: Option<&CliprdrFileList>)
        ensures
            l is Some <==> self@.remote_files is Some,
            l matches Some(list) ==> list@ == self@.remote_files->0,
    {
        self.remote_file_list.as_ref()
    }

    /// Tests whether files can be fetched from the server.
    pub fn supports_file_clipboard(&self) -> (b: bool)
        ensures
            b == (self@.file_clipboard && self@.descriptor_id is Some),
    {
        self.file_clipboard_enabled && self.file_group_descriptor_format_id.is_some()
    }

    /// Tests whether a file of the server's list can be asked for.
    fn file_available(&self, file_index: u32) -> (b: bool)
        ensures
            b == can_request_file(self@, file_index),
    {
        if self.state != CliprdrState::Ready {
            return false;
        }
        match &self.remote_file_list {
            Some(list) => (file_index as u64) < list.count() as u64,
            None => false,
        }
    }

    /// Gives out a stream identifier for the size or a part of a file.
    fn take_stream_id(&mut self, flags: FileContentsFlags) -> (id: u32)
        ensures
            id == old(self)@.next_stream_id,
            final(self)@ == asked(old(self)@, flags),
    {
        broadcast use vstd::std_specs::hash::group_hash_axioms;

        let id: u32 = self.next_stream_id;
        self.next_stream_id = id.wrapping_add(1);
        match flags {
            FileContentsFlags::Size => {
                self.part_requests.remove(&id);
            },
            FileContentsFlags::Range => {
                self.part_requests.insert(id);
            },
        }
        id
    }

    /// Asks for the size of a file: gives the stream identifier and the message.
    pub fn request_file_size(&mut self, file_index: u32) -> (r: Option<(u32, Vec<u8>)>)
        ensures
            r is Some <==> can_request_file(old(self)@, file_index),
            r is None ==> final(self)@ == old(self)@,
            r matches Some((id, data)) ==> {
                &&& id == old(self)@.next_stream_id
                &&& data@ == contents_request_bytes(size_request(id, file_index))
                &&& final(self)@ == asked(old(self)@, FileContentsFlags::Size)
            },
    {
        if !self.file_available(file_index) {
            return None;
        }
        let stream_id: u32 = self.take_stream_id(FileContentsFlags::Size);
        Some((stream_id, FileContentsRequestPdu::size(stream_id, file_index).encode()))
    }

    /// Asks for a part of a file: gives the stream identifier and the message.
    pub fn request_file_content(&mut self, file_index: u32, offset: u64, length: u32) -> (r: Option<
        (u32, Vec<u8>),
    >)
        ensures
            r is Some <==> can_request_file(old(self)@, file_index),
            r is None ==> final(self)@ == old(self)@,
            r matches Some((id, data)) ==> {
                &&& id == old(self)@.next_stream_id
                &&& data@ == contents_request_bytes(part_request(id, file_index, offset, length))
                &&& final(self)@ == asked(old(self)@, FileContentsFlags::Range)
            },
    {
        if !self.file_available(file_index) {
            return None;
        }
        let stream_id: u32 = self.take_stream_id(FileContentsFlags::Range);
        let request = FileContentsRequestPdu::range(stream_id, file_index, offset, length);
        Some((stream_id, request.encode()))
    }

    /// How many files the server's list has.
    pub fn remote_file_count(&self) -> (n: usize)
        ensures
            n == match self@.remote_files {
                Some(files) => files.len(),
                None => 0,
            },
    {
        match &self.remote_file_list {
            Some(list) => list.count(),
            None => 0,
        }
    }

    /// What is known of a file of the server's list.
    pub fn remote_file_info(&self, index: usize) -> (f: Option<FileInfo>)
        ensures
            f is Some <==> self@.remote_files is Some && index < self@.remote_files->0.len(),
            f matches Some(i) ==> i@ == info_of(self@.remote_files->0[index as int]),
    {
        match &self.remote_file_list {
            Some(list) => {
                if index < list.files.len() {
                    Some(FileInfo::of_descriptor(&list.files[index]))
                } else {
                    None
                }
            },
            None => None,
        }
    }
}

impl Default for YardCliprdrHandler {
    fn default() -> (h: YardCliprdrHandler)
        ensures
            h@ == fresh_handler(true, false),
    {
        YardCliprdrHandler::new()
    }
}

/// The files whose metadata could be read.
fn keep_readable(files: Vec<Option<LocalFileInfo>>) -> (kept: Vec<LocalFileInfo>)
    ensures
        views::seq_view(kept@) == readable_files(files@),
{
    let mut kept: Vec<LocalFileInfo> = Vec::new();
    assert(views::seq_view(kept@) == readable_files(files@.take(0)));
    for file in iter: files
        invariant
            iter.seq() == files@,
            views::seq_view(kept@) == readable_files(files@.take(iter.index() as int)),
    {
        proof {
            let longer = files@.take(iter.index() + 1);
            assert(longer.drop_last() == files@.take(iter.index() as int));
            assert(longer.last() == file);
        }
        if let Some(f) = file {
            proof {
                views::lemma_seq_view_push(kept@, f);
            }
            kept.push(f);
        }
    }
    assert(files@.take(files@.len() as int) == files@);
    kept
}

/// The handler of a connection: one that queues events, or a disabled one where
/// nobody listens.
pub fn create_cliprdr_client(with_events: bool) -> (h: YardCliprdrHandler)
    ensures
        h@ == fresh_handler(with_events, with_events),
{
    if with_events {
        YardCliprdrHandler::with_event_channel()
    } else {
        YardCliprdrHandler::disabled()
    }
}

} // verus!
