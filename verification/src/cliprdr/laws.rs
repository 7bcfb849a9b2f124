//! What holds of the clipboard handler as a whole.
use vstd::prelude::*;

use crate::bytes;
use crate::cliprdr;
use crate::cliprdr::pdu;
use crate::cliprdr::pdu::{
    ContentsResponseView, DataResponseView, FileContentsFlags, FileContentsRequestPdu, FormatView,
    PduView,
};
use crate::cliprdr::{CliprdrState, EventView, HandlerView, LocalFileInfo, LocalFileView};
use crate::utf16;

verus! {

/// Not both text and files are on offer.
pub open spec fn exclusive(h: HandlerView) -> bool {
    h.local_text is None || h.local_files is None
}

/// Text and files are never on offer together: a fresh handler offers neither,
/// and every operation keeps it so.
pub proof fn law_text_and_files_exclusive(
    h: HandlerView,
    payload: Seq<u8>,
    s: Seq<char>,
    files: Seq<Option<LocalFileInfo>>,
    id: u32,
    flags: FileContentsFlags,
)
    requires
        exclusive(h),
    ensures
        forall|enabled: bool, events: bool|
            exclusive(#[trigger] cliprdr::fresh_handler(enabled, events)),
        cliprdr::on_payload(h, payload) matches Ok(step) ==> exclusive(step.handler),
        exclusive(cliprdr::offer_text(h, s).0),
        exclusive(cliprdr::offer_files(h, files).0),
        exclusive(cliprdr::offer_nothing(h).0),
        exclusive(cliprdr::format_request(h, id).0),
        exclusive(cliprdr::asked(h, flags)),
{
}

/// The most recent change wins: a format list from the server drops what was on
/// offer locally, a local change replaces what was on offer before it.
pub proof fn law_most_recent_change_wins(
    h: HandlerView,
    formats: Seq<FormatView>,
    s: Seq<char>,
    t: Seq<char>,
    files: Seq<Option<LocalFileInfo>>,
)
    requires
        h.state == CliprdrState::Ready,
    ensures
        cliprdr::on_format_list(h, formats).handler.local_text is None,
        cliprdr::on_format_list(h, formats).handler.local_files is None,
        cliprdr::on_format_list(h, formats).handler.server_formats == formats,
        cliprdr::offer_text(cliprdr::offer_text(h, s).0, t) == cliprdr::offer_text(h, t),
        cliprdr::offer_text(cliprdr::offer_files(h, files).0, t) == cliprdr::offer_text(h, t),
        cliprdr::readable_files(files).len() > 0 ==> cliprdr::offer_files(
            cliprdr::offer_text(h, s).0,
            files,
        ) == cliprdr::offer_files(h, files),
{
    if files.len() == 0 {
        assert(cliprdr::readable_files(files).len() == 0);
    }
}

/// A disabled handler ignores every message and never becomes ready, whether or
/// not it was started: it answers nothing, and nothing can be offered or asked
/// for through it.
pub proof fn law_disabled_is_inert(
    h: HandlerView,
    payload: Seq<u8>,
    s: Seq<char>,
    files: Seq<Option<LocalFileInfo>>,
    id: u32,
)
    requires
        !h.enabled,
        h.state != CliprdrState::Ready,
    ensures
        cliprdr::on_payload(h, payload) == Ok::<cliprdr::Step, pdu::CliprdrErrorView>(
            cliprdr::Step { handler: h, messages: Seq::empty() },
        ),
        cliprdr::offer_text(h, s) == (h, None::<Seq<Seq<u8>>>),
        cliprdr::offer_files(h, files) == (h, None::<Seq<Seq<u8>>>),
        cliprdr::offer_nothing(h) == (h, None::<Seq<Seq<u8>>>),
        cliprdr::format_request(h, id) == (h, None::<Seq<u8>>),
        !cliprdr::can_request_file(h, id),
{
}

/// A message changes neither whether the clipboard is shared nor whether events
/// are queued, and queues events only for a listener.
pub proof fn law_settings_kept(h: HandlerView, payload: Seq<u8>)
    ensures
        cliprdr::on_payload(h, payload) matches Ok(step) ==> {
            &&& step.handler.enabled == h.enabled
            &&& step.handler.events_enabled == h.events_enabled
            &&& step.handler.events.len() >= h.events.len()
            &&& step.handler.events.take(h.events.len() as int) == h.events
            &&& !h.events_enabled ==> step.handler.events == h.events
        },
{
    match cliprdr::on_payload(h, payload) {
        Ok(step) => {
            assert(step.handler.events.take(h.events.len() as int) =~= h.events);
        },
        Err(_) => {},
    }
}

/// Text that is offered is what the server reads: its request for Unicode text is
/// answered with a message from which the text is read back. The text has no
/// U+0000, which ends it, and does not start with U+FEFF, which a reader takes
/// for a byte order mark.
pub proof fn law_offered_text_is_served(h: HandlerView, s: Seq<char>, long_names: bool)
    requires
        h.state == CliprdrState::Ready,
        h.local_descriptor_id != 13,
        utf16::no_nul(s),
        s.len() > 0 ==> s[0] != '\u{FEFF}',
        cliprdr::terminated_utf16(s).len() < 0x1_0000_0000,
    ensures
        ({
            let offered = cliprdr::offer_text(h, s).0;
            let messages = cliprdr::on_data_request(offered, 13).messages;
            &&& messages.len() == 1
            &&& pdu::decode_pdu(messages[0], long_names) matches Ok(
                PduView::FormatDataResponse(r),
            )
            &&& r.success
            &&& r.unicode_text() == Some(s)
        }),
{
    let offered = cliprdr::offer_text(h, s).0;
    let data = cliprdr::terminated_utf16(s);
    let r = DataResponseView { success: true, data };
    assert(cliprdr::served_data(offered, 13) == r);
    pdu::laws::law_data_response_round_trip(r, long_names);
    lemma_terminated_text(s);
}

/// A terminated text is read back.
pub proof fn lemma_terminated_text(s: Seq<char>)
    requires
        utf16::no_nul(s),
        s.len() > 0 ==> s[0] != '\u{FEFF}',
    ensures
        pdu::unicode_text_of(cliprdr::terminated_utf16(s)) == Some(s),
{
    let u = utf16::encode_utf16(s);
    let n = u.len() as int;
    let data = cliprdr::terminated_utf16(s);
    let units = utf16::byte_units(data);
    utf16::law_unit_bytes_round_trip(u, bytes::le16(0));
    utf16::lemma_encode_no_nul(s);
    utf16::law_utf16_round_trip(s);
    assert(data[2 * n] == 0 && data[2 * n + 1] == 0);
    assert(units[n] == 0);
    assert forall|i: int| 0 <= i < n implies units[i] == u[i] by {
        assert(units.take(n)[i] == u[i]);
    }
    bytes::lemma_index_unique(units, 0u16, n);
    assert(bytes::before_first(units, 0u16) == u);
    if n > 0 {
        utf16::lemma_char_range(s[0]);
        utf16::lemma_char_range('\u{FEFF}');
        assert(u == utf16::char_units(s[0]) + utf16::encode_utf16(s.drop_first()));
        assert(u[0] == utf16::char_units(s[0])[0]);
        assert(u[0] != 0xFEFF);
        assert(units[0] == u[0]);
        assert(bytes::le16_at(data, 0) == u[0]);
    }
    assert(pdu::without_bom(data) == data);
}

/// ASCII text that is offered is read back as ANSI text, too.
pub proof fn law_offered_ascii_is_served(h: HandlerView, s: Seq<char>, long_names: bool)
    requires
        h.state == CliprdrState::Ready,
        h.local_descriptor_id != 1,
        utf16::no_nul(s),
        forall|i: int| 0 <= i < s.len() ==> ((#[trigger] s[i]) as u32) < 128,
        s.len() + 1 < 0x1_0000_0000,
    ensures
        ({
            let offered = cliprdr::offer_text(h, s).0;
            let messages = cliprdr::on_data_request(offered, 1).messages;
            &&& messages.len() == 1
            &&& pdu::decode_pdu(messages[0], long_names) matches Ok(
                PduView::FormatDataResponse(r),
            )
            &&& r.success
            &&& r.ansi_text() == Some(s)
        }),
{
    let offered = cliprdr::offer_text(h, s).0;
    lemma_ascii_bytes(s);
    let r = DataResponseView { success: true, data: cliprdr::ascii_bytes(s).push(0) };
    assert(cliprdr::served_data(offered, 1) == r);
    pdu::laws::law_data_response_round_trip(r, long_names);
    lemma_terminated_ascii(s);
}

/// A terminated ASCII text is read back.
proof fn lemma_terminated_ascii(s: Seq<char>)
    requires
        utf16::no_nul(s),
        forall|i: int| 0 <= i < s.len() ==> ((#[trigger] s[i]) as u32) < 128,
    ensures
        pdu::ansi_text_of(cliprdr::ascii_bytes(s).push(0)) == Some(s),
{
    lemma_ascii_bytes(s);
    let body = cliprdr::ascii_bytes(s);
    let data = body.push(0);
    assert forall|i: int| 0 <= i < s.len() implies data[i] != 0 by {
        assert(s[i] != '\0' && s[i] as u32 <= 127);
        utf16::lemma_char_range(s[i]);
        assert(body[i] == s[i] as u8);
    }
    bytes::lemma_index_unique(data, 0u8, s.len() as int);
    assert(bytes::before_first(data, 0u8) == body);
    assert forall|i: int| 0 <= i < s.len() implies '\0' <= #[trigger] s[i] <= '\u{7f}' by {
        assert(s[i] as u32 <= 127);
        utf16::lemma_char_range(s[i]);
    }
    assert(vstd::utf8::is_ascii_chars(s));
    vstd::utf8::is_ascii_chars_encode_utf8(s);
    assert(vstd::utf8::encode_utf8(s) == body);
    vstd::utf8::encode_utf8_valid_utf8(s);
    vstd::utf8::encode_utf8_decode_utf8(s);
}

/// The bytes of an ASCII text are its characters.
proof fn lemma_ascii_bytes(s: Seq<char>)
    requires
        forall|i: int| 0 <= i < s.len() ==> ((#[trigger] s[i]) as u32) < 128,
    ensures
        cliprdr::ascii_bytes(s).len() == s.len(),
        forall|i: int| 0 <= i < s.len() ==> #[trigger] cliprdr::ascii_bytes(s)[i] == s[i] as u8,
    decreases s.len(),
{
    if s.len() > 0 {
        let front = s.drop_last();
        assert forall|i: int| 0 <= i < front.len() implies ((#[trigger] front[i]) as u32) < 128 by {
            assert(front[i] == s[i]);
        }
        lemma_ascii_bytes(front);
        assert(s[s.len() - 1] as u32 <= 127);
        assert forall|i: int| 0 <= i < s.len() implies #[trigger] cliprdr::ascii_bytes(s)[i]
            == s[i] as u8 by {
            if i < front.len() {
                assert(cliprdr::ascii_bytes(front)[i] == front[i] as u8);
            }
        }
    }
}

/// Files that are offered are what the server reads: its request for the file
/// list is answered with the descriptor of each file, its name as it is stored.
pub proof fn law_offered_files_are_listed(
    h: HandlerView,
    files: Seq<LocalFileView>,
    long_names: bool,
)
    requires
        h.local_files == Some(files),
        4 + 592 * files.len() < 0x1_0000_0000,
    ensures
        ({
            let messages = cliprdr::on_data_request(h, h.local_descriptor_id).messages;
            &&& messages.len() == 1
            &&& pdu::decode_pdu(messages[0], long_names) matches Ok(
                PduView::FormatDataResponse(r),
            )
            &&& r.success
            &&& pdu::decode_file_list(r.data) == Ok::<
                Seq<pdu::DescriptorView>,
                pdu::CliprdrErrorView,
            >(
                Seq::new(
                    files.len(),
                    |i: int| pdu::laws::stored(cliprdr::descriptor_of(files[i])),
                ),
            )
        }),
{
    let descriptors = cliprdr::descriptors_of(files);
    pdu::laws::law_file_list_round_trip(descriptors);
    pdu::laws::lemma_file_list_len(descriptors);
    let r = DataResponseView { success: true, data: pdu::file_list_bytes(descriptors) };
    pdu::laws::law_data_response_round_trip(r, long_names);
    assert(Seq::new(descriptors.len(), |i: int| pdu::laws::stored(descriptors[i])) =~= Seq::new(
        files.len(),
        |i: int| pdu::laws::stored(cliprdr::descriptor_of(files[i])),
    ));
}

/// The size of a local file reaches the server as it is.
pub proof fn law_file_size_is_served(h: HandlerView, r: FileContentsRequestPdu, long_names: bool)
    requires
        h.local_files is Some,
        r.lindex < h.local_files->0.len(),
        r.flags == FileContentsFlags::Size,
    ensures
        ({
            let messages = cliprdr::on_contents_request(h, r).messages;
            &&& messages.len() == 1
            &&& pdu::decode_pdu(messages[0], long_names) matches Ok(
                PduView::FileContentsResponse(a),
            )
            &&& a.stream_id == r.stream_id
            &&& a.file_size() == Some(h.local_files->0[r.lindex as int].size)
        }),
{
    let size = h.local_files->0[r.lindex as int].size;
    let a = ContentsResponseView {
        success: true,
        stream_id: r.stream_id,
        data: bytes::le64(size),
    };
    pdu::laws::law_contents_response_round_trip(a, long_names);
    pdu::laws::law_file_size_round_trip(r.stream_id, size);
}

/// Two file requests in a row carry different stream identifiers.
pub proof fn law_stream_ids_differ(h: HandlerView, flags: FileContentsFlags)
    ensures
        cliprdr::asked(h, flags).next_stream_id != h.next_stream_id,
{
}

/// The server reads the identifier, the file and the place of a file request from
/// its message.
pub proof fn law_request_reaches_server(
    stream_id: u32,
    file_index: u32,
    offset: u64,
    length: u32,
    long_names: bool,
)
    ensures
        pdu::decode_pdu(
            cliprdr::contents_request_bytes(cliprdr::size_request(stream_id, file_index)),
            long_names,
        ) == Ok::<PduView, pdu::CliprdrErrorView>(
            PduView::FileContentsRequest(cliprdr::size_request(stream_id, file_index)),
        ),
        pdu::decode_pdu(
            cliprdr::contents_request_bytes(
                cliprdr::part_request(stream_id, file_index, offset, length),
            ),
            long_names,
        ) == Ok::<PduView, pdu::CliprdrErrorView>(
            PduView::FileContentsRequest(
                cliprdr::part_request(stream_id, file_index, offset, length),
            ),
        ),
        cliprdr::part_request(stream_id, file_index, offset, length).position() == offset,
{
    pdu::laws::law_contents_request_round_trip(
        cliprdr::size_request(stream_id, file_index),
        long_names,
    );
    pdu::laws::law_contents_request_round_trip(
        cliprdr::part_request(stream_id, file_index, offset, length),
        long_names,
    );
    bytes::law_halves_join(offset);
}

/// The answer to a file request is one event that carries the identifier of the
/// request: of a part that was asked for its bytes, however many they are, of a
/// size that was asked for the size.
pub proof fn law_answer_matches_request(h: HandlerView, a: ContentsResponseView, size: u64)
    requires
        h.events_enabled,
        a.stream_id == h.next_stream_id,
    ensures
        ({
            let id = h.next_stream_id;
            let part_answer = cliprdr::on_contents_response(
                cliprdr::asked(h, FileContentsFlags::Range),
                a,
            );
            let size_answer = cliprdr::on_contents_response(
                cliprdr::asked(h, FileContentsFlags::Size),
                a,
            );
            &&& part_answer.messages.len() == 0 && size_answer.messages.len() == 0
            &&& a.success ==> part_answer.handler.events == h.events.push(
                EventView::FileContentReceived { stream_id: id, data: a.data },
            )
            &&& a.success && a.data == bytes::le64(size) ==> size_answer.handler.events
                == h.events.push(EventView::FileSizeReceived { stream_id: id, size })
            &&& !a.success ==> part_answer.handler.events == h.events.push(
                EventView::FileTransferFailed { stream_id: id },
            ) && size_answer.handler.events == part_answer.handler.events
        }),
{
    if a.success && a.data == bytes::le64(size) {
        pdu::laws::law_file_size_round_trip(a.stream_id, size);
        assert(a == (ContentsResponseView {
            success: true,
            stream_id: a.stream_id,
            data: bytes::le64(size),
        }));
    }
}

/// Whether a part was asked for under an identifier is remembered until the answer
/// under it comes, whatever else is asked for or arrives.
pub proof fn law_open_request_kept(
    h: HandlerView,
    id: u32,
    flags: FileContentsFlags,
    payload: Seq<u8>,
)
    ensures
        id != h.next_stream_id ==> cliprdr::asked(h, flags).parts.contains(id) == h.parts.contains(
            id,
        ),
        cliprdr::on_payload(h, payload) matches Ok(step) ==> step.handler.parts.contains(id)
            == h.parts.contains(id) || answers(h, payload, id) && !step.handler.parts.contains(id),
{
}

/// Identifiers are given out by file requests only: nothing that arrives and
/// nothing that is offered or asked for otherwise takes one.
pub proof fn law_identifiers_are_for_requests(
    h: HandlerView,
    payload: Seq<u8>,
    s: Seq<char>,
    files: Seq<Option<LocalFileInfo>>,
    id: u32,
)
    ensures
        cliprdr::on_payload(h, payload) matches Ok(step) ==> step.handler.next_stream_id
            == h.next_stream_id,
        cliprdr::offer_text(h, s).0.next_stream_id == h.next_stream_id,
        cliprdr::offer_files(h, files).0.next_stream_id == h.next_stream_id,
        cliprdr::offer_nothing(h).0.next_stream_id == h.next_stream_id,
        cliprdr::format_request(h, id).0.next_stream_id == h.next_stream_id,
        cliprdr::text_request(h).0.next_stream_id == h.next_stream_id,
{
}

/// The bytes are an answer to the file request under the identifier.
pub open spec fn answers(h: HandlerView, payload: Seq<u8>, id: u32) -> bool {
    match pdu::decode_pdu(payload, h.long_names) {
        Ok(PduView::FileContentsResponse(a)) => a.stream_id == id,
        _ => false,
    }
}

/// What was asked for as ANSI text is read as such, and what was asked for as a file
/// list is no text.
pub proof fn law_data_read_as_asked(h: HandlerView, r: DataResponseView)
    ensures
        r.success && h.pending_request == Some(1u32) && h.descriptor_id != Some(1u32)
            && r.ansi_text() is Some ==> cliprdr::on_data_response(h, r).handler.pending_data
            == r.ansi_text(),
        h.pending_request is Some && h.pending_request == h.descriptor_id
            ==> cliprdr::on_data_response(h, r).handler.pending_data == h.pending_data,
        cliprdr::on_data_response(h, r).handler.pending_request is None,
{
}

/// Nothing can be offered or asked for before the channel is ready.
pub proof fn law_nothing_before_ready(
    h: HandlerView,
    s: Seq<char>,
    files: Seq<Option<LocalFileInfo>>,
    id: u32,
)
    requires
        h.state != CliprdrState::Ready,
    ensures
        cliprdr::offer_text(h, s) == (h, None::<Seq<Seq<u8>>>),
        cliprdr::offer_files(h, files) == (h, None::<Seq<Seq<u8>>>),
        cliprdr::offer_nothing(h) == (h, None::<Seq<Seq<u8>>>),
        cliprdr::text_request(h) == (h, None::<Seq<u8>>),
        cliprdr::format_request(h, id) == (h, None::<Seq<u8>>),
        !cliprdr::can_request_file(h, id),
{
}

} // verus!
