//! Where the fields of the clipboard channel's messages stand.
use vstd::prelude::*;

use crate::bytes;
use crate::cliprdr::pdu;
use crate::cliprdr::pdu::{
    fd_flags, file_attributes, CliprdrErrorView, DataResponseView, DescriptorView,
    FileContentsFlags, FormatView, MessageFlags, PduView, StandardFormat,
};
use crate::text;
use crate::utf16;

verus! {

/// The number in the four bytes from `at` on, low bytes first.
pub open spec fn four(p: Seq<u8>, at: int) -> int {
    p[at] + 0x100 * p[at + 1] + 0x1_0000 * p[at + 2] + 0x100_0000 * p[at + 3]
}

/// The number in the two bytes from `at` on, low byte first.
pub open spec fn two(p: Seq<u8>, at: int) -> int {
    p[at] + 0x100 * p[at + 1]
}

/// A message is told by its number; the kinds that only a client sends, and numbers
/// that are none, are refused with the number. Less than eight bytes are no message.
pub proof fn law_kind_of_message(m: Seq<u8>, long_names: bool)
    ensures
        m.len() < 8 ==> pdu::decode_pdu(m, long_names) is Err,
        m.len() >= 8 ==> match pdu::decode_pdu(m, long_names) {
            Ok(PduView::MonitorReady) => two(m, 0) == 1,
            Ok(PduView::FormatList(_)) => two(m, 0) == 2,
            Ok(PduView::FormatListResponse(_)) => two(m, 0) == 3,
            Ok(PduView::FormatDataRequest(_)) => two(m, 0) == 4,
            Ok(PduView::FormatDataResponse(_)) => two(m, 0) == 5,
            Ok(PduView::ClipCaps(_)) => two(m, 0) == 7,
            Ok(PduView::FileContentsRequest(_)) => two(m, 0) == 8,
            Ok(PduView::FileContentsResponse(_)) => two(m, 0) == 9,
            Err(CliprdrErrorView::InvalidMessageType(n)) => n == two(m, 0) && (n == 0 || n == 6
                || n > 9),
            Err(_) => two(m, 0) == 4 || two(m, 0) == 7 || two(m, 0) == 8 || two(m, 0) == 9,
        },
{
}

/// A message that can be read has as payload the bytes behind its header, as many as
/// the header says; where there are fewer, it has none.
pub proof fn law_payload_of_message(m: Seq<u8>)
    requires
        m.len() >= 8,
    ensures
        8 + four(m, 4) <= m.len() ==> pdu::payload_of(m) == m.subrange(8, 8 + four(m, 4)),
        8 + four(m, 4) > m.len() ==> pdu::payload_of(m).len() == 0,
{
}

/// The bits that say that a request succeeded and that names are in ASCII.
pub proof fn law_flags_of_message(flags: u16)
    ensures
        MessageFlags(flags).ok() <==> flags % 2 == 1,
        MessageFlags(flags).ascii_names() <==> flags / 4 % 2 == 1,
        MessageFlags::RESPONSE_OK == 1 && MessageFlags::RESPONSE_FAIL == 2,
        MessageFlags::ASCII_NAMES == 4,
{
    assert((flags & 0x0001 != 0) == (flags % 2 == 1)) by (bit_vector);
    assert((flags & 0x0004 != 0) == (flags / 4 % 2 == 1)) by (bit_vector);
}

/// The general capability set is the one of kind one; its flags are in its last four
/// bytes of twelve.
pub proof fn law_capabilities_are_read(p: Seq<u8>)
    requires
        p.len() == 16,
        two(p, 0) == 1,
        two(p, 4) == 1,
        two(p, 6) == 12,
    ensures
        pdu::decode_caps(p) == Ok::<u32, CliprdrErrorView>(four(p, 12) as u32),
{
    reveal_with_fuel(pdu::capability_flags, 3);
    assert(bytes::le16_at(p, 0) == 1 && bytes::le16_at(p, 4) == 1 && bytes::le16_at(p, 6) == 12);
    assert(bytes::le32_at(p, 12) == four(p, 12));
}

/// The capabilities are written as one set of kind one, of twelve bytes and version
/// two.
pub proof fn law_capabilities_are_written(flags: u32)
    ensures
        ({
            let p = pdu::caps_payload(flags);
            &&& p.len() == 16
            &&& two(p, 0) == 1 && two(p, 2) == 0
            &&& two(p, 4) == 1 && two(p, 6) == 12
            &&& four(p, 8) == 2
            &&& four(p, 12) == flags
        }),
{
    let p = pdu::caps_payload(flags);
    bytes::law_low_bytes_come_first(0, flags);
    assert(p.subrange(12, 16) =~= bytes::le32(flags));
    assert(p[12] == bytes::le32(flags)[0] && p[13] == bytes::le32(flags)[1] && p[14] == bytes::le32(
        flags,
    )[2] && p[15] == bytes::le32(flags)[3]);
}

/// A format in a list with long names is its number and the units of its name, ended
/// by a zero; what follows is the rest of the list.
pub proof fn law_long_format_is_written(f: FormatView, rest: Seq<FormatView>)
    ensures
        ({
            let p = pdu::format_bytes(f);
            &&& four(p, 0) == f.id
            &&& p.subrange(4, p.len() - 2) == utf16::unit_bytes(utf16::encode_utf16(f.name))
            &&& p[p.len() - 2] == 0 && p[p.len() - 1] == 0
            &&& pdu::long_payload(seq![f] + rest) == p + pdu::long_payload(rest)
            &&& pdu::long_payload(Seq::empty()).len() == 0
        }),
{
    let p = pdu::format_bytes(f);
    let name = utf16::unit_bytes(utf16::encode_utf16(f.name));
    bytes::law_low_bytes_come_first(0, f.id);
    assert(p[0] == bytes::le32(f.id)[0] && p[1] == bytes::le32(f.id)[1] && p[2] == bytes::le32(
        f.id,
    )[2] && p[3] == bytes::le32(f.id)[3]);
    assert(p.subrange(4, p.len() - 2) =~= name);
    assert((seq![f] + rest).drop_first() =~= rest);
}

/// A list with short names has a record of 36 bytes for each format: its number, and
/// its name up to the first zero byte.
pub proof fn law_short_formats_are_read(p: Seq<u8>, i: int)
    requires
        0 <= i,
        36 * i + 36 <= p.len(),
    ensures
        pdu::short_formats(p).len() == p.len() / 36,
        pdu::short_formats(p)[i].id == four(p, 36 * i),
        pdu::short_formats(p)[i].name == text::utf8_lossy(
            bytes::before_first(p.subrange(36 * i + 4, 36 * i + 36), 0u8),
        ),
{
    let r = p.subrange(36 * i, 36 * i + 36);
    assert(r.skip(4) =~= p.subrange(36 * i + 4, 36 * i + 36));
    assert(r[0] == p[36 * i] && r[1] == p[36 * i + 1] && r[2] == p[36 * i + 2] && r[3] == p[36 * i
        + 3]);
}

/// Lists are read with short names exactly where long ones were not agreed on and the
/// message says that its names are in ASCII.
pub proof fn law_names_are_short_or_long(m: Seq<u8>, long_names: bool)
    requires
        m.len() >= 8,
        two(m, 0) == 2,
    ensures
        ({
            let p = pdu::payload_of(m);
            pdu::decode_pdu(m, long_names) == Ok::<PduView, CliprdrErrorView>(
                PduView::FormatList(
                    if !long_names && m[2] / 4 % 2 == 1 {
                        pdu::short_formats(p)
                    } else {
                        pdu::long_formats(p)
                    },
                ),
            )
        }),
{
    let flags = bytes::le16_at(m, 2);
    law_flags_of_message(flags);
    assert(flags == m[2] + 256 * m[3]);
    assert(flags / 4 % 2 == m[2] / 4 % 2);
}

/// A request for data is the number of the format.
pub proof fn law_data_request_is_read(p: Seq<u8>)
    ensures
        p.len() < 4 ==> pdu::decode_data_request(p) is Err,
        p.len() >= 4 ==> pdu::decode_data_request(p) == Ok::<u32, CliprdrErrorView>(
            four(p, 0) as u32,
        ),
{
}

/// Data comes with an answer of success, and none with a refusal.
pub proof fn law_data_comes_with_success(p: Seq<u8>, flags: u16)
    ensures
        DataResponseView::read(p, MessageFlags(flags)).success <==> flags % 2 == 1,
        flags % 2 == 1 ==> DataResponseView::read(p, MessageFlags(flags)).data == p,
        flags % 2 == 0 ==> DataResponseView::read(p, MessageFlags(flags)).data.len() == 0,
{
    law_flags_of_message(flags);
}

/// The fields of a request for a file: the identifier, the file, the kind, the place
/// with its lower half first, the length and, where it is there, the lock. A kind that
/// is neither is refused.
pub proof fn law_contents_request_is_read(p: Seq<u8>)
    ensures
        p.len() < 24 ==> pdu::decode_contents_request(p) is Err,
        p.len() >= 24 && four(p, 8) != 1 && four(p, 8) != 2 ==> pdu::decode_contents_request(p)
            is Err,
        p.len() >= 24 && (four(p, 8) == 1 || four(p, 8) == 2) ==> match (
        pdu::decode_contents_request(p)) {
            Ok(r) => {
                &&& r.stream_id == four(p, 0)
                &&& r.lindex == four(p, 4)
                &&& r.flags == FileContentsFlags::Size <==> four(p, 8) == 1
                &&& r.position_low == four(p, 12) && r.position_high == four(p, 16)
                &&& r.position() == four(p, 12) + 0x1_0000_0000 * four(p, 16)
                &&& r.cb_requested == four(p, 20)
                &&& p.len() >= 28 ==> r.clip_data_id == Some(four(p, 24) as u32)
                &&& p.len() < 28 ==> r.clip_data_id is None
            },
            Err(_) => false,
        },
{
}

/// The fields of an answer with a part of a file: the identifier, and the bytes where
/// it succeeded. A size is eight bytes.
pub proof fn law_contents_response_is_read(p: Seq<u8>, flags: u16)
    requires
        p.len() >= 4,
    ensures
        match pdu::decode_contents_response(p, MessageFlags(flags)) {
            Ok(r) => {
                &&& r.stream_id == four(p, 0)
                &&& r.success <==> flags % 2 == 1
                &&& r.success ==> r.data == p.skip(4)
                &&& !r.success ==> r.data.len() == 0
                &&& r.file_size() is Some <==> r.success && p.len() == 12
                &&& r.file_size() matches Some(n) ==> n == four(p, 4) + 0x1_0000_0000 * four(p, 8)
            },
            Err(_) => false,
        },
{
    law_flags_of_message(flags);
}

/// The fields of a file in a list. Its size has its upper half first, its name is the
/// units before the first zero.
pub proof fn law_descriptor_is_read(p: Seq<u8>)
    requires
        p.len() >= 592,
    ensures
        match pdu::decode_descriptor(p) {
            Ok(d) => {
                &&& d.flags == four(p, 0)
                &&& d.file_attributes == four(p, 36)
                &&& d.creation_time == four(p, 40) + 0x1_0000_0000 * four(p, 44)
                &&& d.last_access_time == four(p, 48) + 0x1_0000_0000 * four(p, 52)
                &&& d.last_write_time == four(p, 56) + 0x1_0000_0000 * four(p, 60)
                &&& d.file_size == 0x1_0000_0000 * four(p, 64) + four(p, 68)
                &&& d.file_name == utf16::decode_utf16(
                    bytes::before_first(utf16::byte_units(p.subrange(72, 592)), 0u16),
                )
            },
            Err(_) => false,
        },
{
    let d = pdu::read_descriptor(p);
    bytes::law_low_bytes_are_read_first(p, 40);
    bytes::law_low_bytes_are_read_first(p, 48);
    bytes::law_low_bytes_are_read_first(p, 56);
}

/// A list of files is their number and 592 bytes for each of them; one that is too
/// short for its number is refused.
pub proof fn law_file_list_is_read(p: Seq<u8>)
    ensures
        pdu::decode_descriptor(p) is Ok <==> p.len() >= 592,
        pdu::decode_file_list(p) is Ok <==> p.len() >= 4 && p.len() >= 4 + 592 * four(p, 0),
        pdu::decode_file_list(p) matches Ok(files) ==> {
            &&& files.len() == four(p, 0)
            &&& forall|i: int|
                0 <= i < files.len() ==> #[trigger] files[i] == pdu::read_descriptor(
                    p.subrange(4 + 592 * i, 4 + 592 * i + 592),
                )
        },
{
    if p.len() >= 4 {
        let count = bytes::le32_at(p, 0) as int;
        assert(count == four(p, 0));
        match pdu::decode_file_list(p) {
            Ok(files) => {
                assert forall|i: int| 0 <= i < files.len() implies #[trigger] files[i]
                    == pdu::read_descriptor(p.subrange(4 + 592 * i, 4 + 592 * i + 592)) by {
                    assert(files[i] == pdu::read_descriptor(pdu::descriptor_slot(p, i)));
                }
            },
            Err(_) => {},
        }
    }
}

/// The bits of a file: attributes count where bit 2 of the flags says so, and bit 4 of
/// them makes a directory.
pub proof fn law_directory_is_marked(d: DescriptorView)
    ensures
        d.attributes_valid() <==> d.flags / 4 % 2 == 1,
        d.directory() <==> d.flags / 4 % 2 == 1 && d.file_attributes / 16 % 2 == 1,
        fd_flags::FD_ATTRIBUTES == 4 && fd_flags::FD_WRITETIME == 32,
        fd_flags::FD_FILESIZE == 64,
        file_attributes::FILE_ATTRIBUTE_DIRECTORY == 16,
        file_attributes::FILE_ATTRIBUTE_NORMAL == 128,
{
    let f = d.flags;
    let a = d.file_attributes;
    assert((f & 0x0004 != 0) == (f / 4 % 2 == 1)) by (bit_vector);
    assert((a & 0x10 != 0) == (a / 16 % 2 == 1)) by (bit_vector);
}

/// Times count from 1601 in tenths of microseconds: a second is ten million of them,
/// and 1970 begins at 116444736000000000. Times that do not fit are the last one.
pub proof fn law_times_count_from_1601(t: u64)
    ensures
        pdu::filetime_of(0) == 116_444_736_000_000_000,
        t < 1_800_000_000_000 ==> pdu::filetime_of(t) == 116_444_736_000_000_000 + t * 10_000_000,
        t > 1_900_000_000_000 ==> pdu::filetime_of(t) == u64::MAX,
{
}

/// Text is taken up to its first zero, without a mark of the byte order in front.
pub proof fn law_text_ends_at_zero(units: Seq<u16>, after: Seq<u8>)
    requires
        !units.contains(0u16),
        units.len() > 0,
        units[0] != 0xFEFF,
        utf16::paired(units),
        after.len() % 2 == 0,
    ensures
        ({
            let plain = utf16::unit_bytes(units) + seq![0u8, 0] + after;
            &&& pdu::unicode_text_of(plain) == Some(utf16::decode_utf16(units))
            &&& pdu::unicode_text_of(seq![0xFFu8, 0xFE] + plain) == Some(
                utf16::decode_utf16(units),
            )
            &&& pdu::unicode_text_of(utf16::unit_bytes(units)) == Some(utf16::decode_utf16(units))
        }),
{
    let plain = utf16::unit_bytes(units) + seq![0u8, 0] + after;
    utf16::law_unit_bytes_low_first(units, Seq::empty(), 0);
    lemma_no_mark(units, seq![0u8, 0] + after);
    lemma_no_mark(units, Seq::empty());
    assert(utf16::unit_bytes(units) + Seq::<u8>::empty() =~= utf16::unit_bytes(units));
    assert(plain =~= utf16::unit_bytes(units) + (seq![0u8, 0] + after));
    assert((seq![0xFFu8, 0xFE] + plain).skip(2) =~= plain);
    let marked = seq![0xFFu8, 0xFE] + plain;
    assert(marked[0] == 0xFF && marked[1] == 0xFE);
    let read = utf16::byte_units(plain);
    let n = units.len() as int;
    assert forall|i: int| 0 <= i < n implies read[i] == units[i] by {
        utf16::law_unit_bytes_low_first(units, plain, i);
        assert(plain[2 * i] == utf16::unit_bytes(units)[2 * i]);
        assert(plain[2 * i + 1] == utf16::unit_bytes(units)[2 * i + 1]);
    }
    assert(read[n] == 0) by {
        assert(plain[2 * n] == 0 && plain[2 * n + 1] == 0);
    }
    let tail = read.skip(n + 1);
    assert(read =~= units + seq![0u16] + tail);
    bytes::law_before_first(units, 0u16, tail);
    utf16::law_unit_bytes_round_trip(units, Seq::empty());
}

/// Text that does not begin with the mark keeps its first unit.
proof fn lemma_no_mark(units: Seq<u16>, after: Seq<u8>)
    requires
        units.len() > 0,
        units[0] != 0xFEFF,
    ensures
        pdu::without_bom(utf16::unit_bytes(units) + after) == utf16::unit_bytes(units) + after,
{
    utf16::law_unit_bytes_low_first(units, Seq::empty(), 0);
    let b = utf16::unit_bytes(units) + after;
    assert(b[0] == utf16::unit_bytes(units)[0] && b[1] == utf16::unit_bytes(units)[1]);
}

/// Text in bytes is taken up to its first zero.
pub proof fn law_ansi_text_ends_at_zero(data: Seq<u8>, after: Seq<u8>)
    requires
        !data.contains(0u8),
    ensures
        pdu::ansi_text_of(data + seq![0u8] + after) == pdu::ansi_text_of(data),
        vstd::utf8::valid_utf8(data) ==> pdu::ansi_text_of(data) == Some(
            vstd::utf8::decode_utf8(data),
        ),
        !vstd::utf8::valid_utf8(data) ==> pdu::ansi_text_of(data) is None,
{
    bytes::law_before_first(data, 0u8, after);
}

/// An answer without data or without success holds no text.
pub proof fn law_refusal_holds_no_text(r: DataResponseView)
    ensures
        !r.success || r.data.len() == 0 ==> r.unicode_text() is None && r.ansi_text() is None,
        r.success && r.data.len() > 0 ==> r.unicode_text() == pdu::unicode_text_of(r.data)
            && r.ansi_text() == pdu::ansi_text_of(r.data),
{
}

/// Text is offered in Unicode first, and then in bytes; files as a list of
/// descriptors, and their contents.
pub proof fn law_formats_on_offer(list: u32, contents: u32)
    ensures
        pdu::text_format_list().len() == 2,
        pdu::text_format_list()[0].id == 13 && pdu::text_format_list()[1].id == 1,
        pdu::text_format_list()[0].name.len() == 0 && pdu::text_format_list()[1].name.len() == 0,
        pdu::file_format_list(list, contents).len() == 2,
        pdu::file_format_list(list, contents)[0] == (FormatView {
            id: list,
            name: "FileGroupDescriptorW"@,
        }),
        pdu::file_format_list(list, contents)[1] == (FormatView {
            id: contents,
            name: "FileContents"@,
        }),
{
}

/// Which formats are text, and which is a list of files.
pub proof fn law_kinds_of_formats(f: FormatView)
    ensures
        f.text() <==> f.id == 1 || f.id == 13,
        f.file_list() <==> f.id == 15,
{
}

/// The numbers of the standard formats.
pub proof fn law_numbers_of_formats()
    ensures
        StandardFormat::Bitmap.number() == 2 && StandardFormat::MetafilePict.number() == 3,
        StandardFormat::Sylk.number() == 4 && StandardFormat::Dif.number() == 5,
        StandardFormat::Tiff.number() == 6 && StandardFormat::OemText.number() == 7,
        StandardFormat::Dib.number() == 8 && StandardFormat::Palette.number() == 9,
        StandardFormat::PenData.number() == 10 && StandardFormat::Riff.number() == 11,
        StandardFormat::Wave.number() == 12 && StandardFormat::EnhMetafile.number() == 14,
        StandardFormat::Locale.number() == 16 && StandardFormat::DibV5.number() == 17,
{
}

/// A name in a list of files has at most 259 units, and zeros behind them up to 520
/// bytes.
pub proof fn law_name_field(name: Seq<char>, i: int)
    ensures
        pdu::name_field(name).len() == 520,
        utf16::encode_utf16(name).len() <= 259 ==> pdu::kept_units(name) == utf16::encode_utf16(
            name,
        ),
        utf16::encode_utf16(name).len() > 259 ==> pdu::kept_units(name) == utf16::encode_utf16(
            name,
        ).take(259),
        2 * pdu::kept_units(name).len() <= i < 520 ==> pdu::name_field(name)[i] == 0,
{
    utf16::law_unit_bytes_low_first(pdu::kept_units(name), Seq::empty(), 0);
}

/// The message of an error holds the number that was not understood, in hexadecimal
/// digits, or the lengths.
pub proof fn law_error_holds_numbers(n: u16, context: Seq<char>, expected: int, actual: int)
    requires
        0 <= expected,
        0 <= actual,
    ensures
        text::hexadecimal(n as nat).is_suffix_of(CliprdrErrorView::InvalidMessageType(n).text()),
        text::hexadecimal(n as nat).is_suffix_of(CliprdrErrorView::InvalidFlags(n).text()),
        text::occurs(
            (CliprdrErrorView::PayloadTooShort { context, expected, actual }).text(),
            context,
        ),
        text::occurs(
            (CliprdrErrorView::PayloadTooShort { context, expected, actual }).text(),
            ": expected "@ + text::decimal(expected as nat) + ", got "@ + text::decimal(
                actual as nat,
            ),
        ),
{
    let h = text::hexadecimal(n as nat);
    let a = CliprdrErrorView::InvalidMessageType(n).text();
    let b = CliprdrErrorView::InvalidFlags(n).text();
    assert(a.subrange(a.len() - h.len(), a.len() as int) =~= h);
    assert(b.subrange(b.len() - h.len(), b.len() as int) =~= h);
    let t = (CliprdrErrorView::PayloadTooShort { context, expected, actual }).text();
    let e = text::decimal(expected as nat);
    let g = text::decimal(actual as nat);
    let begin = "CLIPRDR payload too short for "@;
    let lengths = ": expected "@ + e + ", got "@ + g;
    assert(t =~= begin + context + lengths);
    text::law_part_occurs(begin, context, lengths);
    assert(t =~= (begin + context) + lengths + Seq::empty());
    text::law_part_occurs(begin + context, lengths, Seq::empty());
}

/// The mark of the byte order is taken off where text begins with it, and nothing else
/// is.
pub proof fn law_mark_is_taken_off(rest: Seq<u8>, data: Seq<u8>)
    ensures
        pdu::without_bom(seq![0xFFu8, 0xFE] + rest) == rest,
        data.len() < 2 || data[0] != 0xFF || data[1] != 0xFE ==> pdu::without_bom(data) == data,
{
    assert((seq![0xFFu8, 0xFE] + rest).skip(2) =~= rest);
}

/// The error says that the bytes are too few, how many are needed and how many there
/// are.
pub open spec fn too_few(e: CliprdrErrorView, needed: int, there: int) -> bool {
    e matches CliprdrErrorView::PayloadTooShort { expected, actual, .. } && expected == needed
        && actual == there
}

/// What is too short is refused with the length that it has and the one that it needs;
/// a request of an unknown kind with the kind.
pub proof fn law_short_messages_are_refused(p: Seq<u8>, flags: MessageFlags, long_names: bool)
    ensures
        p.len() < 8 ==> (pdu::decode_pdu(p, long_names) matches Err(e) && too_few(
            e,
            8,
            p.len() as int,
        )),
        p.len() < 4 ==> (pdu::decode_caps(p) matches Err(e) && too_few(e, 4, p.len() as int)),
        p.len() < 4 ==> (pdu::decode_data_request(p) matches Err(e) && too_few(
            e,
            4,
            p.len() as int,
        )),
        p.len() < 24 ==> (pdu::decode_contents_request(p) matches Err(e) && too_few(
            e,
            24,
            p.len() as int,
        )),
        p.len() < 4 ==> (pdu::decode_contents_response(p, flags) matches Err(e) && too_few(
            e,
            4,
            p.len() as int,
        )),
        p.len() < 592 ==> (pdu::decode_descriptor(p) matches Err(e) && too_few(
            e,
            592,
            p.len() as int,
        )),
        p.len() < 4 ==> (pdu::decode_file_list(p) matches Err(e) && too_few(
            e,
            4,
            p.len() as int,
        )),
        p.len() >= 24 && four(p, 8) != 1 && four(p, 8) != 2 ==> pdu::decode_contents_request(p)
            == Err::<pdu::FileContentsRequestPdu, CliprdrErrorView>(
            CliprdrErrorView::InvalidFlags((four(p, 8) % 65536) as u16),
        ),
{
}

} // verus!
