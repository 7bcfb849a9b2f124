//! What the two ends of the clipboard channel tell each other: what one of them
//! copies, the other one reads.
use vstd::prelude::*;

use crate::bytes;
use crate::cliprdr;
use crate::cliprdr::laws;
use crate::cliprdr::pdu;
use crate::cliprdr::pdu::{
    CliprdrErrorView, ContentsResponseView, DataResponseView, FileContentsFlags,
    FileContentsRequestPdu, FormatView, MessageType, PduView, StandardFormat,
};
use crate::cliprdr::{
    CliprdrState, EventView, FileInfoView, FileRead, HandlerView, LocalFileInfo, LocalFileView,
    Step,
};
use crate::utf16;

verus! {

/// The message is read as the given one, whether or not long names were agreed on.
pub open spec fn reads_as(message: Seq<u8>, p: PduView) -> bool {
    forall|long_names: bool| #[trigger]
        pdu::decode_pdu(message, long_names) == Ok::<PduView, CliprdrErrorView>(p)
}

/// A handler does with a message what it does with what the message is read as.
pub proof fn lemma_handled(h: HandlerView, m: Seq<u8>, p: PduView)
    requires
        h.enabled,
        reads_as(m, p),
    ensures
        cliprdr::on_payload(h, m) == Ok::<Step, CliprdrErrorView>(cliprdr::on_pdu(h, p)),
{
    assert(pdu::decode_pdu(m, h.long_names) == Ok::<PduView, CliprdrErrorView>(p));
    if m.len() == 0 {
        assert(pdu::decode_pdu(m, h.long_names) is Err);
    }
}

/// What a message leads to, where it is understood.
#[verifier::opaque]
pub open spec fn received(h: HandlerView, m: Seq<u8>) -> Step {
    cliprdr::on_payload(h, m)->Ok_0
}

/// A handler does with a message what it does with what the message is read as.
pub proof fn law_message_is_handled_as_read(h: HandlerView, m: Seq<u8>, p: PduView)
    requires
        h.enabled,
        reads_as(m, p),
    ensures
        received(h, m) == cliprdr::on_pdu(h, p),
{
    reveal(received);
    lemma_handled(h, m, p);
}

/// The numbers on the wire: of the messages, of the formats of text, of the two
/// kinds of file requests.
pub proof fn law_numbers_on_the_wire()
    ensures
        MessageType::MonitorReady.number() == 1,
        MessageType::FormatList.number() == 2,
        MessageType::FormatListResponse.number() == 3,
        MessageType::FormatDataRequest.number() == 4,
        MessageType::FormatDataResponse.number() == 5,
        MessageType::TempDirectory.number() == 6,
        MessageType::ClipCaps.number() == 7,
        MessageType::FileContentsRequest.number() == 8,
        MessageType::FileContentsResponse.number() == 9,
        MessageType::LockClipData.number() == 10,
        MessageType::UnlockClipData.number() == 11,
        StandardFormat::Text.number() == 1,
        StandardFormat::UnicodeText.number() == 13,
        StandardFormat::Hdrop.number() == 15,
        FileContentsFlags::Size.number() == 1,
        FileContentsFlags::Range.number() == 2,
        pdu::response_flags(true) == 1,
        pdu::response_flags(false) == 2,
{
}

/// Every message is its type, its flags and the length of its payload, low bytes
/// first, and then the payload.
pub proof fn law_message_layout(kind: MessageType, flags: u16, payload: Seq<u8>)
    requires
        payload.len() < 0x1_0000_0000,
    ensures
        ({
            let m = pdu::framed(kind, flags, payload);
            &&& m.len() == 8 + payload.len()
            &&& m[0] + 256 * m[1] == kind.number()
            &&& m[2] + 256 * m[3] == flags
            &&& m[4] + 256 * m[5] + 65536 * m[6] + 16777216 * m[7] == payload.len()
            &&& m.skip(8) == payload
        }),
{
    let m = pdu::framed(kind, flags, payload);
    pdu::laws::law_header_round_trip(kind, flags, payload);
    let n = (payload.len() as int % 0x1_0000_0000) as u32;
    assert(n == payload.len());
    assert(m.subrange(4, 8) == bytes::le32(n));
    bytes::lemma_le32_field(m, 4, n);
    assert(m[4] == bytes::le32(n)[0] && m[5] == bytes::le32(n)[1] && m[6] == bytes::le32(n)[2]
        && m[7] == bytes::le32(n)[3]);
    assert(m.skip(8) =~= payload);
}

/// When the server is ready the client becomes ready, says that it takes long
/// format names and serves files, and says that its clipboard is empty.
pub proof fn law_setup_is_announced(h: HandlerView)
    ensures
        ({
            let step = cliprdr::on_monitor_ready(h);
            &&& step.handler == (HandlerView { state: CliprdrState::Ready, ..h })
            &&& step.messages.len() == 2
            &&& reads_as(step.messages[0], PduView::ClipCaps(6))
            &&& reads_as(step.messages[1], PduView::FormatList(Seq::empty()))
        }),
        6u32 & 0x2 != 0,
        6u32 & 0x4 != 0,
{
    let step = cliprdr::on_monitor_ready(h);
    assert(6u32 & 0x2 != 0 && 6u32 & 0x4 != 0) by (bit_vector);
    assert(pdu::long_payload(Seq::<FormatView>::empty()) == Seq::<u8>::empty());
    assert forall|b: bool| true implies #[trigger] pdu::decode_pdu(step.messages[0], b) == Ok::<
        PduView,
        CliprdrErrorView,
    >(PduView::ClipCaps(6)) by {
        pdu::laws::law_caps_round_trip(6, b);
    }
    assert forall|b: bool| true implies #[trigger] pdu::decode_pdu(step.messages[1], b) == Ok::<
        PduView,
        CliprdrErrorView,
    >(PduView::FormatList(Seq::empty())) by {
        pdu::laws::law_format_list_round_trip(Seq::empty(), b);
    }
}

/// The server's capabilities are taken from the bits that the protocol has for them,
/// and change nothing else.
pub proof fn law_capabilities_are_taken(h: HandlerView, flags: u32)
    ensures
        ({
            let step = cliprdr::on_clip_caps(h, flags);
            &&& step.messages.len() == 0
            &&& step.handler == (HandlerView {
                long_names: flags & 0x2 != 0,
                file_clipboard: flags & 0x4 != 0,
                ..h
            })
        }),
{
}

/// A format list of two formats with plain names is read back.
proof fn lemma_two_formats(formats: Seq<FormatView>)
    requires
        formats.len() == 2,
        pdu::laws::plain_names(formats),
        formats[0].name.len() <= 100,
        formats[1].name.len() <= 100,
    ensures
        reads_as(
            pdu::framed(MessageType::FormatList, 0, pdu::long_payload(formats)),
            PduView::FormatList(formats),
        ),
{
    reveal_with_fuel(pdu::long_payload, 3);
    utf16::lemma_encode_no_nul(formats[0].name);
    utf16::lemma_encode_no_nul(formats[1].name);
    assert(formats.drop_first()[0] == formats[1]);
    assert(formats.drop_first().drop_first() =~= Seq::<FormatView>::empty());
    assert forall|b: bool| true implies #[trigger] pdu::decode_pdu(
        pdu::framed(MessageType::FormatList, 0, pdu::long_payload(formats)),
        b,
    ) == Ok::<PduView, CliprdrErrorView>(PduView::FormatList(formats)) by {
        pdu::laws::law_format_list_round_trip(formats, b);
    }
}

/// The two formats of text, without names.
pub open spec fn announces_text(formats: Seq<FormatView>) -> bool {
    &&& formats.len() == 2
    &&& formats[0].id == 13 && formats[1].id == 1
    &&& formats[0].name.len() == 0 && formats[1].name.len() == 0
}

/// Text that is copied is announced: the one message that is sent is read as a list
/// of the formats of Unicode and of ANSI text, and each format that it announces is
/// then served, while no other format is.
pub proof fn law_copied_text_is_announced(h: HandlerView, s: Seq<char>, id: u32)
    requires
        h.state == CliprdrState::Ready,
        h.local_descriptor_id != 13,
        h.local_descriptor_id != 1,
    ensures
        ({
            let (next, sent) = cliprdr::offer_text(h, s);
            &&& sent is Some && sent->0.len() == 1
            &&& next == (HandlerView { local_text: Some(s), local_files: None, ..h })
            &&& exists|formats: Seq<FormatView>|
                announces_text(formats) && #[trigger] reads_as(
                    sent->0[0],
                    PduView::FormatList(formats),
                )
            &&& cliprdr::served_data(next, id).success <==> id == 13 || id == 1
        }),
{
    let formats = pdu::text_format_list();
    lemma_two_formats(formats);
    assert(announces_text(formats));
    assert(reads_as(cliprdr::offer_text(h, s).1->0[0], PduView::FormatList(formats)));
}

/// The formats of a file list and of file contents, with the names that the protocol
/// has for them.
pub open spec fn announces_files(formats: Seq<FormatView>, list: u32, contents: u32) -> bool {
    &&& formats.len() == 2
    &&& formats[0] == (FormatView { id: list, name: "FileGroupDescriptorW"@ })
    &&& formats[1] == (FormatView { id: contents, name: "FileContents"@ })
}

/// The names of the formats of files can be written.
proof fn lemma_file_names_plain(list: u32, contents: u32)
    ensures
        pdu::laws::plain_names(pdu::file_format_list(list, contents)),
        "FileGroupDescriptorW"@.len() == 20,
        "FileContents"@.len() == 12,
        "FileGroupDescriptorW"@ != "FileContents"@,
{
    reveal_strlit("FileGroupDescriptorW");
    reveal_strlit("FileContents");
    let formats = pdu::file_format_list(list, contents);
    assert forall|i: int| 0 <= i < formats.len() implies utf16::no_nul(#[trigger] formats[i].name)
        && utf16::single_units(formats[i].name) by {
        let name = formats[i].name;
        assert forall|k: int| 0 <= k < name.len() implies #[trigger] name[k] != '\0' && name[k]
            as u32 <= 0xFFFF by {
            utf16::lemma_char_range(name[k]);
        }
    }
}

/// Files that are copied are announced: the one message that is sent is read as a
/// list of the two formats of files, and the list of files is then served under the
/// number that was announced for it, and nothing under another.
pub proof fn law_copied_files_are_announced(
    h: HandlerView,
    files: Seq<Option<LocalFileInfo>>,
    id: u32,
)
    requires
        h.state == CliprdrState::Ready,
        cliprdr::readable_files(files).len() > 0,
    ensures
        ({
            let (next, sent) = cliprdr::offer_files(h, files);
            &&& sent is Some && sent->0.len() == 1
            &&& next == (HandlerView {
                local_text: None,
                local_files: Some(cliprdr::readable_files(files)),
                ..h
            })
            &&& exists|formats: Seq<FormatView>|
                announces_files(formats, h.local_descriptor_id, h.local_contents_id)
                    && #[trigger] reads_as(sent->0[0], PduView::FormatList(formats))
            &&& cliprdr::served_data(next, id).success <==> id == h.local_descriptor_id
        }),
{
    let formats = pdu::file_format_list(h.local_descriptor_id, h.local_contents_id);
    lemma_file_names_plain(h.local_descriptor_id, h.local_contents_id);
    lemma_two_formats(formats);
    if files.len() == 0 {
        assert(cliprdr::readable_files(files).len() == 0);
    }
    assert(announces_files(formats, h.local_descriptor_id, h.local_contents_id));
    assert(reads_as(cliprdr::offer_files(h, files).1->0[0], PduView::FormatList(formats)));
}

/// Files that could be read are offered, in the order in which they were copied, and
/// no others.
pub proof fn law_readable_files_are_offered(
    a: Seq<Option<LocalFileInfo>>,
    b: Seq<Option<LocalFileInfo>>,
    f: LocalFileInfo,
)
    ensures
        cliprdr::readable_files(a + b) == cliprdr::readable_files(a) + cliprdr::readable_files(b),
        cliprdr::readable_files(seq![Some(f)]) == seq![f@],
        cliprdr::readable_files(seq![None]) == Seq::<LocalFileView>::empty(),
    decreases b.len(),
{
    reveal_with_fuel(cliprdr::readable_files, 2);
    assert(seq![Some(f)].drop_last() =~= Seq::<Option<LocalFileInfo>>::empty());
    assert(seq![None::<LocalFileInfo>].drop_last() =~= Seq::<Option<LocalFileInfo>>::empty());
    assert(cliprdr::readable_files(seq![Some(f)]) =~= seq![f@]);
    if b.len() == 0 {
        assert(a + b =~= a);
        assert(cliprdr::readable_files(a) + cliprdr::readable_files(b)
            =~= cliprdr::readable_files(a));
    } else {
        law_readable_files_are_offered(a, b.drop_last(), f);
        assert((a + b).drop_last() =~= a + b.drop_last());
        assert((a + b).last() == b.last());
        assert(cliprdr::readable_files(a + b) =~= cliprdr::readable_files(a)
            + cliprdr::readable_files(b));
    }
}

/// Where the local clipboard is emptied, or a file list without files is copied, the
/// server is told that there is nothing, and nothing is served any more. Where no
/// file could be read, nothing changes and nothing is sent.
pub proof fn law_empty_clipboard_is_announced(
    h: HandlerView,
    files: Seq<Option<LocalFileInfo>>,
    id: u32,
)
    requires
        h.state == CliprdrState::Ready,
    ensures
        ({
            let (next, sent) = cliprdr::offer_nothing(h);
            &&& next == (HandlerView { local_text: None, local_files: None, ..h })
            &&& sent is Some && sent->0.len() == 1
            &&& reads_as(sent->0[0], PduView::FormatList(Seq::empty()))
            &&& !cliprdr::served_data(next, id).success
        }),
        files.len() == 0 ==> cliprdr::offer_files(h, files) == cliprdr::offer_nothing(h),
        files.len() > 0 && cliprdr::readable_files(files).len() == 0 ==> cliprdr::offer_files(
            h,
            files,
        ) == (h, None::<Seq<Seq<u8>>>),
{
    let sent = cliprdr::offer_nothing(h).1->0;
    assert(pdu::long_payload(Seq::<FormatView>::empty()) == Seq::<u8>::empty());
    assert forall|b: bool| true implies #[trigger] pdu::decode_pdu(sent[0], b) == Ok::<
        PduView,
        CliprdrErrorView,
    >(PduView::FormatList(Seq::empty())) by {
        pdu::laws::law_format_list_round_trip(Seq::empty(), b);
    }
}

/// The number that a name has in a format list is that of the last format with the
/// name.
pub proof fn law_format_is_found_by_name(formats: Seq<FormatView>, name: Seq<char>)
    ensures
        match cliprdr::last_named(formats, name) {
            Some(id) => exists|i: int|
                0 <= i < formats.len() && (#[trigger] formats[i]).name == name && formats[i].id
                    == id && forall|j: int| i < j < formats.len() ==> formats[j].name != name,
            None => forall|i: int| 0 <= i < formats.len() ==> (#[trigger] formats[i]).name != name,
        },
    decreases formats.len(),
{
    if formats.len() > 0 {
        let front = formats.drop_last();
        let last = formats.len() - 1;
        if formats[last].name == name {
            assert(formats[last].id == cliprdr::last_named(formats, name)->0);
        } else {
            law_format_is_found_by_name(front, name);
            match cliprdr::last_named(front, name) {
                Some(id) => {
                    let i = choose|i: int|
                        0 <= i < front.len() && (#[trigger] front[i]).name == name && front[i].id
                            == id && forall|j: int| i < j < front.len() ==> front[j].name != name;
                    assert(formats[i] == front[i]);
                    assert forall|j: int| i < j < formats.len() implies formats[j].name != name by {
                        if j < last {
                            assert(formats[j] == front[j]);
                        }
                    }
                },
                None => {
                    assert forall|i: int| 0 <= i < formats.len() implies (#[trigger] formats[i]).name
                        != name by {
                        if i < last {
                            assert(formats[i] == front[i]);
                        }
                    }
                },
            }
        }
    }
}

/// What the server copied is accepted and asked for: a list of files before Unicode
/// text, Unicode text before ANSI text, and nothing where nobody listens. The
/// listener is told of the formats in their order, and of whether there is text and
/// whether there are files. What was known of an earlier list is forgotten.
pub proof fn law_remote_copy_is_asked_for(h: HandlerView, formats: Seq<FormatView>)
    ensures
        ({
            let step = cliprdr::on_format_list(h, formats);
            let list = cliprdr::last_named(formats, "FileGroupDescriptorW"@);
            let unicode = exists|i: int| 0 <= i < formats.len() && (#[trigger] formats[i]).id == 13;
            let ansi = exists|i: int| 0 <= i < formats.len() && (#[trigger] formats[i]).id == 1;
            let asks = h.events_enabled && (list is Some || unicode || ansi);
            let wanted: u32 = if list is Some {
                list->0
            } else if unicode {
                13
            } else {
                1
            };
            &&& step.messages.len() == (if asks {
                2int
            } else {
                1
            })
            &&& reads_as(step.messages[0], PduView::FormatListResponse(true))
            &&& asks ==> reads_as(step.messages[1], PduView::FormatDataRequest(wanted))
            &&& step.handler.pending_request == (if asks {
                Some(wanted)
            } else {
                h.pending_request
            })
            &&& step.handler.server_formats == formats
            &&& step.handler.descriptor_id == list
            &&& step.handler.contents_id == cliprdr::last_named(formats, "FileContents"@)
            &&& step.handler.remote_files is None
            &&& step.handler.state == h.state
            &&& step.handler.pending_data == h.pending_data
            &&& step.handler.reads == h.reads
            &&& step.handler.parts == h.parts
            &&& h.events_enabled ==> {
                &&& step.handler.events.len() == h.events.len() + 1
                &&& step.handler.events.take(h.events.len() as int) == h.events
                &&& match step.handler.events.last() {
                    EventView::FormatsAvailable { formats: ids, has_text, has_files } => {
                        &&& ids.len() == formats.len()
                        &&& forall|i: int|
                            0 <= i < ids.len() ==> #[trigger] ids[i] == formats[i].id
                        &&& has_text == (unicode || ansi)
                        &&& has_files == (list is Some)
                    },
                    _ => false,
                }
            }
            &&& !h.events_enabled ==> step.handler.events == h.events
        }),
{
    let step = cliprdr::on_format_list(h, formats);
    assert(step.handler.events.take(h.events.len() as int) =~= h.events);
    let m = step.messages[0];
    assert forall|b: bool| true implies #[trigger] pdu::decode_pdu(m, b) == Ok::<
        PduView,
        CliprdrErrorView,
    >(PduView::FormatListResponse(true)) by {
        pdu::laws::law_format_list_response_round_trip(true, b);
    }
    let request = cliprdr::automatic_request(h, formats);
    if let Some(id) = request {
        lemma_request_reads(id);
    }
}

/// A data request is read as such.
proof fn lemma_request_reads(id: u32)
    ensures
        reads_as(
            pdu::framed(MessageType::FormatDataRequest, 0, bytes::le32(id)),
            PduView::FormatDataRequest(id),
        ),
{
    let m = pdu::framed(MessageType::FormatDataRequest, 0, bytes::le32(id));
    assert forall|b: bool| true implies #[trigger] pdu::decode_pdu(m, b) == Ok::<
        PduView,
        CliprdrErrorView,
    >(PduView::FormatDataRequest(id)) by {
        pdu::laws::law_data_request_round_trip(id, b);
    }
}

/// Text is asked for in the best format that the server has: the message is read as
/// a request for it, and its number is remembered until the answer comes. A format
/// that the server does not have is not asked for.
pub proof fn law_text_is_asked_for(h: HandlerView, id: u32)
    requires
        h.state == CliprdrState::Ready,
    ensures
        ({
            let unicode = exists|i: int|
                0 <= i < h.server_formats.len() && (#[trigger] h.server_formats[i]).id == 13;
            let ansi = exists|i: int|
                0 <= i < h.server_formats.len() && (#[trigger] h.server_formats[i]).id == 1;
            let (next, sent) = cliprdr::text_request(h);
            let wanted: u32 = if unicode {
                13
            } else {
                1
            };
            &&& sent is Some <==> unicode || ansi
            &&& sent matches Some(m) ==> reads_as(m, PduView::FormatDataRequest(wanted)) && next
                == (HandlerView { pending_request: Some(wanted), ..h })
            &&& sent is None ==> next == h
        }),
        ({
            let offered = exists|i: int|
                0 <= i < h.server_formats.len() && (#[trigger] h.server_formats[i]).id == id;
            let (next, sent) = cliprdr::format_request(h, id);
            &&& sent is Some <==> offered
            &&& sent matches Some(m) ==> reads_as(m, PduView::FormatDataRequest(id)) && next == (
            HandlerView { pending_request: Some(id), ..h })
            &&& sent is None ==> next == h
        }),
{
    lemma_request_reads(id);
    lemma_request_reads(13);
    lemma_request_reads(1);
}

/// Text that arrives is handed over: to the listener, and for whoever takes it. A
/// refused request is reported as failed and leaves what was there.
pub proof fn law_text_that_arrives_is_handed_over(h: HandlerView, s: Seq<char>)
    requires
        h.events_enabled,
        h.pending_request is Some,
        h.pending_request != h.descriptor_id,
        utf16::no_nul(s),
        s.len() > 0 ==> s[0] != '\u{FEFF}',
    ensures
        h.pending_request != Some(1u32) ==> cliprdr::on_data_response(
            h,
            DataResponseView { success: true, data: cliprdr::terminated_utf16(s) },
        ) == (Step {
            handler: HandlerView {
                pending_data: Some(s),
                pending_request: None,
                events: h.events.push(EventView::TextReceived { text: s }),
                ..h
            },
            messages: Seq::empty(),
        }),
        cliprdr::on_data_response(h, DataResponseView { success: false, data: Seq::empty() })
            == (Step {
            handler: HandlerView {
                pending_request: None,
                events: h.events.push(EventView::RequestFailed),
                ..h
            },
            messages: Seq::empty(),
        }),
{
    laws::lemma_terminated_text(s);
    assert(cliprdr::terminated_utf16(s).len() >= 2);
}

/// ANSI text that was asked for is handed over; so is text that came in place of
/// Unicode text and is none.
pub proof fn law_ansi_text_is_handed_over(h: HandlerView, r: DataResponseView)
    requires
        h.events_enabled,
        r.success,
        r.ansi_text() is Some,
        h.pending_request != h.descriptor_id,
        h.pending_request == Some(1u32) || r.unicode_text() is None,
    ensures
        cliprdr::on_data_response(h, r).handler == (HandlerView {
            pending_data: r.ansi_text(),
            pending_request: None,
            events: h.events.push(EventView::TextReceived { text: r.ansi_text()->0 }),
            ..h
        }),
{
}

/// A list of files that arrives is kept, and the listener is told of each file in
/// its place: its name, its size where the list has one, and whether it is a
/// directory. Data that is no list is reported as failed.
pub proof fn law_file_list_that_arrives_is_handed_over(h: HandlerView, r: DataResponseView)
    requires
        h.events_enabled,
        r.success,
        h.pending_request == h.descriptor_id,
    ensures
        ({
            let next = cliprdr::on_data_response(h, r).handler;
            &&& next.pending_request is None && next.pending_data == h.pending_data
            &&& next.events.len() == h.events.len() + 1
            &&& next.events.take(h.events.len() as int) == h.events
            &&& match pdu::decode_file_list(r.data) {
                Ok(files) => {
                    &&& next.remote_files == Some(files)
                    &&& match next.events.last() {
                        EventView::FilesReceived { files: infos } => infos.len() == files.len()
                            && forall|i: int|
                            0 <= i < files.len() ==> (#[trigger] infos[i]) == (FileInfoView {
                                name: files[i].file_name,
                                size: if files[i].flags & 0x40 != 0 {
                                    Some(files[i].file_size)
                                } else {
                                    None
                                },
                                is_directory: files[i].flags & 0x4 != 0
                                    && files[i].file_attributes & 0x10 != 0,
                            }),
                        _ => false,
                    }
                },
                Err(_) => next.events.last() is RequestFailed && next.remote_files
                    == h.remote_files,
            }
        }),
{
    let next = cliprdr::on_data_response(h, r).handler;
    assert(next.events.take(h.events.len() as int) =~= h.events);
}

/// Nobody is told of anything where nobody listens.
pub proof fn law_silent_handler_queues_nothing(h: HandlerView, p: PduView)
    requires
        !h.events_enabled,
    ensures
        cliprdr::on_pdu(h, p).handler.events == h.events,
{
}

/// A fresh handler has nothing: it is not ready, offers nothing, knows of nothing,
/// waits for nothing. Its own format numbers are different ones, in the range of
/// registered formats.
pub proof fn law_fresh_handler_is_empty(enabled: bool, events_enabled: bool, id: u32)
    ensures
        ({
            let h = cliprdr::fresh_handler(enabled, events_enabled);
            &&& h.enabled == enabled && h.events_enabled == events_enabled
            &&& h.state != CliprdrState::Ready
            &&& h.events.len() == 0 && h.reads.len() == 0 && h.server_formats.len() == 0
            &&& h.local_text is None && h.local_files is None && h.remote_files is None
            &&& h.pending_request is None && h.pending_data is None
            &&& h.descriptor_id is None && h.contents_id is None
            &&& h.local_descriptor_id != h.local_contents_id
            &&& 0xC000 <= h.local_descriptor_id <= 0xFFFF && 0xC000 <= h.local_contents_id
                <= 0xFFFF
            &&& !cliprdr::can_request_file(h, id)
            &&& !h.parts.contains(id)
            &&& h.next_stream_id != 0
        }),
{
}

/// What the server asks for is answered with one message, read as the answer to its
/// request.
pub proof fn law_data_request_is_answered(h: HandlerView, id: u32)
    requires
        cliprdr::served_data(h, id).data.len() < 0x1_0000_0000,
    ensures
        ({
            let step = cliprdr::on_data_request(h, id);
            &&& step.handler == h
            &&& step.messages.len() == 1
            &&& reads_as(
                step.messages[0],
                PduView::FormatDataResponse(cliprdr::served_data(h, id)),
            )
            &&& !cliprdr::served_data(h, id).success ==> cliprdr::served_data(h, id).data.len()
                == 0
        }),
{
    let r = cliprdr::served_data(h, id);
    let m = cliprdr::on_data_request(h, id).messages[0];
    assert forall|b: bool| true implies #[trigger] pdu::decode_pdu(m, b) == Ok::<
        PduView,
        CliprdrErrorView,
    >(PduView::FormatDataResponse(r)) by {
        pdu::laws::law_data_response_round_trip(r, b);
        assert(!r.success ==> r.data =~= Seq::<u8>::empty());
    }
}

/// A file request of the server as it is on the wire: the identifier, the file, the
/// kind, the place in two halves, the length.
pub open spec fn request_on_the_wire(
    stream_id: u32,
    lindex: u32,
    kind: u32,
    offset: u64,
    length: u32,
) -> Seq<u8> {
    pdu::framed(
        MessageType::FileContentsRequest,
        0,
        bytes::le32(stream_id) + bytes::le32(lindex) + bytes::le32(kind) + bytes::le32(
            (offset % 0x1_0000_0000) as u32,
        ) + bytes::le32((offset / 0x1_0000_0000) as u32) + bytes::le32(length),
    )
}

/// What a request on the wire is read as.
proof fn lemma_wire_request(
    stream_id: u32,
    lindex: u32,
    flags: FileContentsFlags,
    offset: u64,
    length: u32,
    r: FileContentsRequestPdu,
)
    requires
        r == (FileContentsRequestPdu {
            stream_id,
            lindex,
            flags,
            position_low: (offset % 0x1_0000_0000) as u32,
            position_high: (offset / 0x1_0000_0000) as u32,
            cb_requested: length,
            clip_data_id: None,
        }),
    ensures
        reads_as(
            request_on_the_wire(stream_id, lindex, flags.number(), offset, length),
            PduView::FileContentsRequest(r),
        ),
        r.position() == offset,
{
    let m = request_on_the_wire(stream_id, lindex, flags.number(), offset, length);
    assert(m =~= pdu::framed(MessageType::FileContentsRequest, 0, r.payload()));
    assert forall|b: bool| true implies #[trigger] pdu::decode_pdu(m, b) == Ok::<
        PduView,
        CliprdrErrorView,
    >(PduView::FileContentsRequest(r)) by {
        pdu::laws::law_contents_request_round_trip(r, b);
    }
    bytes::law_halves_join(offset);
}

/// A part of a file on offer that the server asks for is read as it asked: one read
/// is queued, of that file, from the byte on that the message names, of the length
/// that it names, and under its identifier. Nothing is answered yet, and nothing else
/// changes.
pub proof fn law_part_is_read_as_asked(
    h: HandlerView,
    stream_id: u32,
    lindex: u32,
    offset: u64,
    length: u32,
)
    requires
        h.enabled,
        h.local_files is Some,
        lindex < h.local_files->0.len(),
    ensures
        ({
            let m = request_on_the_wire(stream_id, lindex, 2, offset, length);
            &&& cliprdr::on_payload(h, m) is Ok
            &&& cliprdr::on_payload(h, m)->Ok_0.messages.len() == 0
            &&& cliprdr::on_payload(h, m)->Ok_0.handler == (HandlerView {
                reads: h.reads.push(FileRead { stream_id, file_index: lindex, offset, length }),
                ..h
            })
        }),
{
    let r = FileContentsRequestPdu {
        stream_id,
        lindex,
        flags: FileContentsFlags::Range,
        position_low: (offset % 0x1_0000_0000) as u32,
        position_high: (offset / 0x1_0000_0000) as u32,
        cb_requested: length,
        clip_data_id: None,
    };
    lemma_wire_request(stream_id, lindex, FileContentsFlags::Range, offset, length, r);
    let m = request_on_the_wire(stream_id, lindex, 2, offset, length);
    lemma_handled(h, m, PduView::FileContentsRequest(r));
}

/// The same, of the message as it is received.
proof fn lemma_part_received(
    h: HandlerView,
    stream_id: u32,
    lindex: u32,
    offset: u64,
    length: u32,
)
    requires
        h.enabled,
        h.local_files is Some,
        lindex < h.local_files->0.len(),
    ensures
        received(h, request_on_the_wire(stream_id, lindex, 2, offset, length)).handler == (
        HandlerView {
            reads: h.reads.push(FileRead { stream_id, file_index: lindex, offset, length }),
            ..h
        }),
{
    reveal(received);
    law_part_is_read_as_asked(h, stream_id, lindex, offset, length);
}

/// The size of a file on offer that the server asks for is answered at once, under
/// the identifier of the request and with the eight bytes of the size; nothing
/// changes.
#[verifier::spinoff_prover]
pub proof fn law_size_is_answered_as_asked(
    h: HandlerView,
    stream_id: u32,
    lindex: u32,
    offset: u64,
    length: u32,
)
    requires
        h.enabled,
        h.local_files is Some,
        lindex < h.local_files->0.len(),
    ensures
        ({
            let m = request_on_the_wire(stream_id, lindex, 1, offset, length);
            let size = h.local_files->0[lindex as int].size;
            let step = cliprdr::on_payload(h, m)->Ok_0;
            &&& cliprdr::on_payload(h, m) is Ok
            &&& step.handler == h
            &&& step.messages.len() == 1
            &&& reads_as(
                step.messages[0],
                PduView::FileContentsResponse(
                    ContentsResponseView { success: true, stream_id, data: bytes::le64(size) },
                ),
            )
        }),
{
    let r = FileContentsRequestPdu {
        stream_id,
        lindex,
        flags: FileContentsFlags::Size,
        position_low: (offset % 0x1_0000_0000) as u32,
        position_high: (offset / 0x1_0000_0000) as u32,
        cb_requested: length,
        clip_data_id: None,
    };
    lemma_wire_request(stream_id, lindex, FileContentsFlags::Size, offset, length, r);
    let m = request_on_the_wire(stream_id, lindex, 1, offset, length);
    lemma_handled(h, m, PduView::FileContentsRequest(r));
    lemma_contents_answer_reads(
        ContentsResponseView {
            success: true,
            stream_id,
            data: bytes::le64(h.local_files->0[lindex as int].size),
        },
    );
}

/// A request for a file that is not on offer is refused under its identifier, and
/// changes nothing.
pub proof fn law_unknown_file_is_refused(h: HandlerView, r: FileContentsRequestPdu)
    requires
        h.local_files is None || r.lindex >= h.local_files->0.len(),
    ensures
        ({
            let step = cliprdr::on_contents_request(h, r);
            &&& step.handler == h
            &&& step.messages.len() == 1
            &&& reads_as(
                step.messages[0],
                PduView::FileContentsResponse(
                    ContentsResponseView {
                        success: false,
                        stream_id: r.stream_id,
                        data: Seq::empty(),
                    },
                ),
            )
        }),
{
    lemma_contents_answer_reads(
        ContentsResponseView { success: false, stream_id: r.stream_id, data: Seq::empty() },
    );
}

/// An answer to a file request is read as such.
proof fn lemma_contents_answer_reads(a: ContentsResponseView)
    requires
        a.data.len() + 4 < 0x1_0000_0000,
        !a.success ==> a.data == Seq::<u8>::empty(),
    ensures
        reads_as(cliprdr::contents_response_bytes(a), PduView::FileContentsResponse(a)),
{
    let m = cliprdr::contents_response_bytes(a);
    assert forall|b: bool| true implies #[trigger] pdu::decode_pdu(m, b) == Ok::<
        PduView,
        CliprdrErrorView,
    >(PduView::FileContentsResponse(a)) by {
        pdu::laws::law_contents_response_round_trip(a, b);
    }
}

/// A part that was read reaches the server as it was read, under the identifier of
/// its request; one that could not be read is refused.
pub proof fn law_part_reaches_server(read: FileRead, data: Seq<u8>)
    requires
        data.len() + 4 < 0x1_0000_0000,
    ensures
        reads_as(
            cliprdr::read_answer(read, Some(data)),
            PduView::FileContentsResponse(
                ContentsResponseView { success: true, stream_id: read.stream_id, data },
            ),
        ),
        reads_as(
            cliprdr::read_answer(read, None),
            PduView::FileContentsResponse(
                ContentsResponseView {
                    success: false,
                    stream_id: read.stream_id,
                    data: Seq::empty(),
                },
            ),
        ),
{
    lemma_contents_answer_reads(
        ContentsResponseView { success: true, stream_id: read.stream_id, data },
    );
    lemma_contents_answer_reads(
        ContentsResponseView {
            success: false,
            stream_id: read.stream_id,
            data: Seq::empty(),
        },
    );
}

/// The bytes of a file from `offset` on, no more than `length` of them.
pub open spec fn part_of(content: Seq<u8>, offset: u64, length: u32) -> Seq<u8> {
    if offset >= content.len() {
        Seq::empty()
    } else if offset + length >= content.len() {
        content.skip(offset as int)
    } else {
        content.subrange(offset as int, offset + length)
    }
}

/// What the reads that are queued from place `from` on give, joined, where
/// `contents` are the local files.
pub open spec fn read_data(contents: Seq<Seq<u8>>, reads: Seq<FileRead>, from: int) -> Seq<u8>
    decreases reads.len(),
{
    if reads.len() <= from || reads.len() == 0 {
        Seq::empty()
    } else {
        let last = reads.last();
        read_data(contents, reads.drop_last(), from) + part_of(
            contents[last.file_index as int],
            last.offset,
            last.length,
        )
    }
}

/// The handler after the server asked for `n` parts of a file, one after the other,
/// each of `chunk` bytes.
pub open spec fn asked_for_parts(
    h: HandlerView,
    stream_id: u32,
    lindex: u32,
    chunk: u32,
    n: nat,
) -> HandlerView
    decreases n,
{
    if n == 0 {
        h
    } else {
        let before = asked_for_parts(h, stream_id, lindex, chunk, (n - 1) as nat);
        let m = request_on_the_wire(stream_id, lindex, 2, ((n - 1) * chunk) as u64, chunk);
        received(before, m).handler
    }
}

/// A file arrives as it is: what is read for requests that follow one another is,
/// joined, the beginning of the file, and all of it once they reach its end.
#[verifier::spinoff_prover]
pub proof fn law_parts_make_the_file(
    h: HandlerView,
    contents: Seq<Seq<u8>>,
    stream_id: u32,
    lindex: u32,
    chunk: u32,
    n: nat,
)
    requires
        h.enabled,
        h.local_files is Some,
        lindex < h.local_files->0.len(),
        contents.len() == h.local_files->0.len(),
        n * chunk <= u64::MAX,
    ensures
        ({
            let next = asked_for_parts(h, stream_id, lindex, chunk, n);
            let content = contents[lindex as int];
            let end = if n * chunk < content.len() {
                n * chunk
            } else {
                content.len() as int
            };
            &&& next == (HandlerView { reads: next.reads, ..h })
            &&& next.reads.len() == h.reads.len() + n
            &&& read_data(contents, next.reads, h.reads.len() as int) == content.take(end)
            &&& n * chunk >= content.len() ==> read_data(
                contents,
                next.reads,
                h.reads.len() as int,
            ) == content
        }),
    decreases n,
{
    let content = contents[lindex as int];
    let next = asked_for_parts(h, stream_id, lindex, chunk, n);
    let from = h.reads.len() as int;
    if n == 0 {
        assert(read_data(contents, h.reads, from) == Seq::<u8>::empty());
        assert(n * chunk == 0) by (nonlinear_arith)
            requires
                n == 0,
        ;
        assert(content.take(0) =~= Seq::<u8>::empty());
        assert(content.len() == 0 ==> content =~= Seq::<u8>::empty());
    } else {
        let k = (n - 1) as nat;
        assert(k * chunk + chunk == n * chunk && 0 <= k * chunk) by (nonlinear_arith)
            requires
                k == n - 1,
                0 <= k,
        ;
        law_parts_make_the_file(h, contents, stream_id, lindex, chunk, k);
        let before = asked_for_parts(h, stream_id, lindex, chunk, k);
        let offset = (k * chunk) as u64;
        lemma_part_received(before, stream_id, lindex, offset, chunk);
        assert(next.reads.drop_last() =~= before.reads);
        assert(next.reads.last() == (FileRead {
            stream_id,
            file_index: lindex,
            offset,
            length: chunk,
        }));
        let part = part_of(content, offset, chunk);
        let done = if k * chunk < content.len() {
            k * chunk
        } else {
            content.len() as int
        };
        let end = if n * chunk < content.len() {
            n * chunk
        } else {
            content.len() as int
        };
        assert(content.take(done) + part =~= content.take(end));
        assert(content.take(content.len() as int) =~= content);
    }
}

/// The far end of the channel: one that listens, and has told what it has.
pub open spec fn listens(peer: HandlerView) -> bool {
    peer.enabled && peer.events_enabled && peer.state == CliprdrState::Ready
}

/// Text that is copied at one end arrives at the other: the announcement is accepted
/// and answered with a request, the request with the text, and the listener there is
/// told of it.
#[verifier::spinoff_prover]
pub proof fn law_copied_text_arrives(h: HandlerView, peer: HandlerView, s: Seq<char>)
    requires
        h.enabled,
        h.state == CliprdrState::Ready,
        h.local_descriptor_id != 13,
        listens(peer),
        utf16::no_nul(s),
        s.len() > 0 ==> s[0] != '\u{FEFF}',
        cliprdr::terminated_utf16(s).len() < 0x1_0000_0000,
    ensures
        ({
            let (offering, sent) = cliprdr::offer_text(h, s);
            let asked = received(peer, sent->0[0]);
            let served = received(offering, asked.messages[1]);
            let told = received(asked.handler, served.messages[0]);
            &&& asked.messages.len() == 2 && served.messages.len() == 1
            &&& told.messages.len() == 0
            &&& told.handler.pending_data == Some(s)
            &&& told.handler.events.len() == peer.events.len() + 2
            &&& told.handler.events.last() == (EventView::TextReceived { text: s })
        }),
{
    let (offering, sent) = cliprdr::offer_text(h, s);
    lemma_text_is_asked_for_by(peer, sent->0[0]);
    let asked = received(peer, sent->0[0]);
    lemma_text_is_served_to(offering, asked.messages[1], s);
    let served = received(offering, asked.messages[1]);
    lemma_text_is_told_to(asked.handler, served.messages[0], s);
}

/// The far end asks for Unicode text when text is announced.
#[verifier::spinoff_prover]
proof fn lemma_text_is_asked_for_by(peer: HandlerView, m: Seq<u8>)
    requires
        listens(peer),
        m == pdu::framed(
            MessageType::FormatList,
            0,
            pdu::long_payload(pdu::text_format_list()),
        ),
    ensures
        ({
            let asked = received(peer, m);
            &&& asked.messages.len() == 2
            &&& reads_as(asked.messages[1], PduView::FormatDataRequest(13))
            &&& listens(asked.handler)
            &&& asked.handler.pending_request == Some(13u32)
            &&& asked.handler.descriptor_id is None
            &&& asked.handler.events.len() == peer.events.len() + 1
        }),
{
    let formats = pdu::text_format_list();
    lemma_two_formats(formats);
    law_message_is_handled_as_read(peer, m, PduView::FormatList(formats));
    lemma_no_text_name(formats);
    assert(formats[0].id == 13);
    assert(cliprdr::has_format(formats, 13));
    law_remote_copy_is_asked_for(peer, formats);
}

/// A request for Unicode text is answered with the text on offer.
#[verifier::spinoff_prover]
proof fn lemma_text_is_served_to(h: HandlerView, m: Seq<u8>, s: Seq<char>)
    requires
        h.enabled,
        h.local_text == Some(s),
        h.local_descriptor_id != 13,
        reads_as(m, PduView::FormatDataRequest(13)),
        cliprdr::terminated_utf16(s).len() < 0x1_0000_0000,
    ensures
        received(h, m).messages.len() == 1,
        reads_as(
            received(h, m).messages[0],
            PduView::FormatDataResponse(
                DataResponseView { success: true, data: cliprdr::terminated_utf16(s) },
            ),
        ),
{
    law_message_is_handled_as_read(h, m, PduView::FormatDataRequest(13));
    law_data_request_is_answered(h, 13);
}

/// Text that was asked for is told to the listener.
#[verifier::spinoff_prover]
proof fn lemma_text_is_told_to(h: HandlerView, m: Seq<u8>, s: Seq<char>)
    requires
        listens(h),
        h.pending_request == Some(13u32),
        h.descriptor_id is None,
        utf16::no_nul(s),
        s.len() > 0 ==> s[0] != '\u{FEFF}',
        reads_as(
            m,
            PduView::FormatDataResponse(
                DataResponseView { success: true, data: cliprdr::terminated_utf16(s) },
            ),
        ),
    ensures
        received(h, m).messages.len() == 0,
        received(h, m).handler.pending_data == Some(s),
        received(h, m).handler.events == h.events.push(EventView::TextReceived { text: s }),
{
    let r = DataResponseView { success: true, data: cliprdr::terminated_utf16(s) };
    law_message_is_handled_as_read(h, m, PduView::FormatDataResponse(r));
    law_text_that_arrives_is_handed_over(h, s);
}

/// The formats of text have no name, so none of them is that of files.
proof fn lemma_no_text_name(formats: Seq<FormatView>)
    requires
        announces_text(formats),
    ensures
        cliprdr::last_named(formats, "FileGroupDescriptorW"@) is None,
        cliprdr::last_named(formats, "FileContents"@) is None,
{
    lemma_file_names_plain(0, 0);
    reveal_with_fuel(cliprdr::last_named, 3);
    assert(formats.drop_last()[0] == formats[0]);
}

/// The files as the far end is told of them.
pub open spec fn told_files(files: Seq<LocalFileView>) -> Seq<FileInfoView> {
    Seq::new(
        files.len(),
        |i: int|
            FileInfoView {
                name: files[i].name,
                size: Some(files[i].size),
                is_directory: files[i].is_directory,
            },
    )
}

/// Every name of a file can be stored in a file list.
pub open spec fn storable_names(files: Seq<LocalFileView>) -> bool {
    forall|i: int|
        0 <= i < files.len() ==> utf16::no_nul((#[trigger] files[i]).name)
            && utf16::encode_utf16(files[i].name).len() <= 259
}

/// A local file keeps its name, its size and whether it is a directory on its way
/// into a file list and out of it.
pub proof fn law_listed_file_is_told(f: LocalFileView)
    requires
        utf16::no_nul(f.name),
        utf16::encode_utf16(f.name).len() <= 259,
    ensures
        cliprdr::info_of(pdu::laws::stored(cliprdr::descriptor_of(f))) == (FileInfoView {
            name: f.name,
            size: Some(f.size),
            is_directory: f.is_directory,
        }),
        cliprdr::descriptor_of(f).flags & 0x20 != 0,
        f.modified_time <= 1_000_000_000_000 ==> cliprdr::descriptor_of(f).last_write_time
            == 10_000_000 * f.modified_time + 116_444_736_000_000_000,
{
    pdu::laws::law_stored_name(f.name);
    assert(0x64u32 & 0x40 != 0 && 0x64u32 & 0x04 != 0 && 0x64u32 & 0x20 != 0) by (bit_vector);
    assert(0x10u32 & 0x10 != 0 && 0x80u32 & 0x10 == 0) by (bit_vector);
}

/// Files that are copied at one end arrive at the other: the announcement is
/// answered with a request for the list, the request with the list, and the listener
/// there is told of every file, in the order in which they were copied.
#[verifier::spinoff_prover]
pub proof fn law_copied_files_arrive(
    h: HandlerView,
    peer: HandlerView,
    files: Seq<Option<LocalFileInfo>>,
)
    requires
        h.enabled,
        h.state == CliprdrState::Ready,
        listens(peer),
        cliprdr::readable_files(files).len() > 0,
        4 + 592 * cliprdr::readable_files(files).len() < 0x1_0000_0000,
        storable_names(cliprdr::readable_files(files)),
    ensures
        ({
            let local = cliprdr::readable_files(files);
            let (offering, sent) = cliprdr::offer_files(h, files);
            let asked = received(peer, sent->0[0]);
            let served = received(offering, asked.messages[1]);
            let told = received(asked.handler, served.messages[0]);
            &&& asked.messages.len() == 2 && served.messages.len() == 1
            &&& told.messages.len() == 0
            &&& told.handler.events.len() == peer.events.len() + 2
            &&& told.handler.events.last() == (EventView::FilesReceived {
                files: told_files(local),
            })
            &&& told.handler.remote_files is Some
            &&& forall|i: u32|
                #[trigger] cliprdr::can_request_file(told.handler, i) <==> i < local.len()
        }),
{
    let local = cliprdr::readable_files(files);
    let (offering, sent) = cliprdr::offer_files(h, files);
    if files.len() == 0 {
        assert(local.len() == 0);
    }
    let formats = pdu::file_format_list(h.local_descriptor_id, h.local_contents_id);
    lemma_file_names_plain(h.local_descriptor_id, h.local_contents_id);
    lemma_two_formats(formats);
    assert(reads_as(sent->0[0], PduView::FormatList(formats)));
    law_message_is_handled_as_read(peer, sent->0[0], PduView::FormatList(formats));
    reveal_with_fuel(cliprdr::last_named, 3);
    assert(formats.drop_last()[0] == formats[0]);
    assert(cliprdr::last_named(formats, "FileGroupDescriptorW"@) == Some(h.local_descriptor_id));
    let asked = received(peer, sent->0[0]);
    lemma_request_reads(h.local_descriptor_id);
    law_message_is_handled_as_read(
        offering,
        asked.messages[1],
        PduView::FormatDataRequest(h.local_descriptor_id),
    );
    let served = received(offering, asked.messages[1]);
    let descriptors = cliprdr::descriptors_of(local);
    pdu::laws::law_file_list_round_trip(descriptors);
    pdu::laws::lemma_file_list_len(descriptors);
    law_data_request_is_answered(offering, h.local_descriptor_id);
    law_message_is_handled_as_read(
        asked.handler,
        served.messages[0],
        PduView::FormatDataResponse(cliprdr::served_data(offering, h.local_descriptor_id)),
    );
    let told = received(asked.handler, served.messages[0]);
    let list = pdu::decode_file_list(pdu::file_list_bytes(descriptors))->Ok_0;
    assert(list.len() == local.len());
    assert forall|i: int| 0 <= i < local.len() implies cliprdr::info_of(#[trigger] list[i])
        == told_files(local)[i] by {
        law_listed_file_is_told(local[i]);
        assert(list[i] == pdu::laws::stored(cliprdr::descriptor_of(local[i])));
    }
    assert(Seq::new(list.len(), |i: int| cliprdr::info_of(list[i])) =~= told_files(local));
}

/// What the far end asks of a file arrives there: the size that it asks for, and the
/// part that it asks for, where the file is read as the handler here queues it.
#[verifier::spinoff_prover]
pub proof fn law_pasted_file_arrives(
    h: HandlerView,
    peer: HandlerView,
    content: Seq<u8>,
    lindex: u32,
    offset: u64,
    length: u32,
)
    requires
        h.enabled,
        h.local_files is Some,
        lindex < h.local_files->0.len(),
        listens(peer),
    ensures
        ({
            let id = peer.next_stream_id;
            let ask = cliprdr::contents_request_bytes(cliprdr::size_request(id, lindex));
            let answer = received(h, ask).messages[0];
            let told = received(
                cliprdr::asked(peer, FileContentsFlags::Size),
                answer,
            ).handler;
            told.events == peer.events.push(
                EventView::FileSizeReceived {
                    stream_id: id,
                    size: h.local_files->0[lindex as int].size,
                },
            )
        }),
        ({
            let id = peer.next_stream_id;
            let ask = cliprdr::contents_request_bytes(
                cliprdr::part_request(id, lindex, offset, length),
            );
            let read = received(h, ask).handler.reads.last();
            let part = part_of(content, read.offset, read.length);
            let answer = cliprdr::read_answer(read, Some(part));
            let told = received(
                cliprdr::asked(peer, FileContentsFlags::Range),
                answer,
            ).handler;
            &&& read.file_index == lindex
            &&& part.len() + 4 < 0x1_0000_0000 ==> told.events == peer.events.push(
                EventView::FileContentReceived {
                    stream_id: id,
                    data: part_of(content, offset, length),
                },
            )
        }),
{
    let id = peer.next_stream_id;
    let size = h.local_files->0[lindex as int].size;
    let size_ask = cliprdr::contents_request_bytes(cliprdr::size_request(id, lindex));
    assert(size_ask =~= request_on_the_wire(id, lindex, 1, 0, 8));
    assert(received(h, size_ask).messages.len() == 1 && reads_as(
        received(h, size_ask).messages[0],
        PduView::FileContentsResponse(
            ContentsResponseView { success: true, stream_id: id, data: bytes::le64(size) },
        ),
    )) by {
        reveal(received);
        law_size_is_answered_as_asked(h, id, lindex, 0, 8);
    }
    let waits = cliprdr::asked(peer, FileContentsFlags::Size);
    let answer = received(h, size_ask).messages[0];
    law_message_is_handled_as_read(
        waits,
        answer,
        PduView::FileContentsResponse(
            ContentsResponseView { success: true, stream_id: id, data: bytes::le64(size) },
        ),
    );
    pdu::laws::law_file_size_round_trip(id, size);
    let part_ask = cliprdr::contents_request_bytes(
        cliprdr::part_request(id, lindex, offset, length),
    );
    assert(part_ask =~= request_on_the_wire(id, lindex, 2, offset, length));
    lemma_part_received(h, id, lindex, offset, length);
    let read = received(h, part_ask).handler.reads.last();
    let part = part_of(content, read.offset, read.length);
    if part.len() + 4 < 0x1_0000_0000 {
        law_part_reaches_server(read, part);
        let waits = cliprdr::asked(peer, FileContentsFlags::Range);
        law_message_is_handled_as_read(
            waits,
            cliprdr::read_answer(read, Some(part)),
            PduView::FileContentsResponse(
                ContentsResponseView { success: true, stream_id: id, data: part },
            ),
        );
    }
}

/// What a fresh handler takes for agreed: long names where it is enabled, no files. It
/// is closed from the start where it is not enabled. Its formats have the numbers that
/// it announces, and its first request the identifier one.
pub proof fn law_fresh_handler_settings(enabled: bool, events_enabled: bool)
    ensures
        ({
            let h = cliprdr::fresh_handler(enabled, events_enabled);
            &&& h.state == CliprdrState::Initial <==> enabled
            &&& h.state == CliprdrState::Closed <==> !enabled
            &&& h.long_names <==> enabled
            &&& !h.file_clipboard
            &&& h.channel_id is None
            &&& h.next_stream_id == 1
            &&& h.local_descriptor_id == 49408 && h.local_contents_id == 49409
        }),
{
}

/// A refusal to hand over what was asked for is told, stores nothing and is the end of
/// the request; so is text that cannot be read.
pub proof fn law_refused_data_is_reported(h: HandlerView, r: DataResponseView)
    requires
        h.events_enabled,
        !r.success || h.pending_request != h.descriptor_id && r.unicode_text() is None
            && r.ansi_text() is None,
    ensures
        ({
            let step = cliprdr::on_data_response(h, r);
            &&& step.messages.len() == 0
            &&& step.handler == (HandlerView {
                pending_request: None,
                events: h.events.push(EventView::RequestFailed),
                ..h
            })
        }),
{
}

/// Text that was asked for in bytes is read as such; any other is read as Unicode where
/// it is, and as bytes where it is not.
pub proof fn law_text_is_read_as_asked(h: HandlerView, r: DataResponseView)
    requires
        h.events_enabled,
        r.success,
        h.pending_request != h.descriptor_id,
    ensures
        ({
            let next = cliprdr::on_data_response(h, r).handler;
            let told = next.events.last();
            &&& next.pending_request is None
            &&& next.events.len() == h.events.len() + 1
            &&& h.pending_request == Some(1u32) && r.ansi_text() is Some ==> told == (
            EventView::TextReceived { text: r.ansi_text()->0 })
            &&& h.pending_request != Some(1u32) && r.unicode_text() is Some ==> told == (
            EventView::TextReceived { text: r.unicode_text()->0 })
            &&& h.pending_request != Some(1u32) && r.unicode_text() is None && r.ansi_text()
                is Some ==> told == (EventView::TextReceived { text: r.ansi_text()->0 })
            &&& told matches EventView::TextReceived { text } ==> next.pending_data == Some(text)
        }),
{
}

/// A file in a list is told with its name, as a directory where it is one, and with its
/// size where the list says that it has one.
pub proof fn law_file_is_told_with_its_size(d: pdu::DescriptorView)
    ensures
        ({
            let f = cliprdr::info_of(d);
            &&& f.name == d.file_name
            &&& d.flags / 64 % 2 == 1 ==> f.size == Some(d.file_size)
            &&& d.flags / 64 % 2 == 0 ==> f.size is None
            &&& f.is_directory <==> d.flags / 4 % 2 == 1 && d.file_attributes / 16 % 2 == 1
        }),
{
    let n = d.flags;
    assert((n & 0x0040 != 0) == (n / 64 % 2 == 1)) by (bit_vector);
    pdu::wire::law_directory_is_marked(d);
}

/// A local file is listed with its name, its size and the time of its last change, and
/// as a directory where it is one; the list says which of the fields count.
pub proof fn law_local_file_is_described(f: LocalFileView)
    ensures
        ({
            let d = cliprdr::descriptor_of(f);
            &&& d.file_name == f.name && d.file_size == f.size
            &&& d.last_write_time == pdu::filetime_of(f.modified_time)
            &&& d.creation_time == 0 && d.last_access_time == 0
            &&& d.flags == 4 + 32 + 64
            &&& f.is_directory ==> d.file_attributes == 16
            &&& !f.is_directory ==> d.file_attributes == 128
        }),
{
}

/// Text in bytes keeps the characters of ASCII, in their order, and leaves the others
/// out.
pub proof fn law_ascii_is_kept(s: Seq<char>, c: char)
    ensures
        (c as u32) < 128 ==> cliprdr::ascii_bytes(s.push(c)) == cliprdr::ascii_bytes(s).push(
            c as u8,
        ),
        (c as u32) >= 128 ==> cliprdr::ascii_bytes(s.push(c)) == cliprdr::ascii_bytes(s),
        cliprdr::ascii_bytes(Seq::empty()).len() == 0,
{
    assert(s.push(c).drop_last() =~= s);
}

/// A file can be asked for once the channel is ready and the server told of it: the
/// size in eight bytes, a part from a byte on. Each request has its own identifier, and
/// only requests for parts are remembered as such.
pub proof fn law_files_are_asked_for(
    h: HandlerView,
    file_index: u32,
    offset: u64,
    length: u32,
)
    ensures
        cliprdr::can_request_file(h, file_index) <==> h.state == CliprdrState::Ready
            && h.remote_files is Some && file_index < h.remote_files->0.len(),
        ({
            let r = cliprdr::size_request(h.next_stream_id, file_index);
            &&& r.stream_id == h.next_stream_id && r.lindex == file_index
            &&& r.flags == FileContentsFlags::Size
            &&& r.position() == 0 && r.cb_requested == 8 && r.clip_data_id is None
        }),
        ({
            let r = cliprdr::part_request(h.next_stream_id, file_index, offset, length);
            &&& r.stream_id == h.next_stream_id && r.lindex == file_index
            &&& r.flags == FileContentsFlags::Range
            &&& r.position() == offset && r.cb_requested == length && r.clip_data_id is None
        }),
        cliprdr::asked(h, FileContentsFlags::Range).parts.contains(h.next_stream_id),
        !cliprdr::asked(h, FileContentsFlags::Size).parts.contains(h.next_stream_id),
        cliprdr::asked(h, FileContentsFlags::Range).next_stream_id == cliprdr::following_id(
            h.next_stream_id,
        ),
{
    bytes::law_halves_join(offset);
}

/// Messages that are understood leave a handler that is not enabled alone, and so does
/// an answer to a list of formats; what is not understood is reported.
pub proof fn law_messages_without_effect(h: HandlerView, m: Seq<u8>, success: bool)
    ensures
        !h.enabled ==> cliprdr::on_payload(h, m) == Ok::<Step, CliprdrErrorView>(
            Step { handler: h, messages: Seq::empty() },
        ),
        cliprdr::on_pdu(h, PduView::FormatListResponse(success)) == (Step {
            handler: h,
            messages: Seq::empty(),
        }),
        h.enabled && m.len() > 0 && pdu::decode_pdu(m, h.long_names) is Err
            ==> cliprdr::on_payload(h, m) is Err,
{
}

} // verus!
