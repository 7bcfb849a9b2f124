//! Decoding undoes encoding, for every message of the clipboard channel.
use vstd::prelude::*;

use crate::bytes;
use crate::cliprdr::pdu;
use crate::cliprdr::pdu::{
    ContentsResponseView, DataResponseView, DescriptorView, FileContentsRequestPdu, FormatView,
    MessageFlags, MessageType, PduView, StandardFormat,
};
use crate::utf16;

verus! {

/// A message type and its number determine each other.
pub proof fn law_message_type_numbers(t: MessageType, n: u16)
    ensures
        MessageType::of_number(t.number()) == Some(t),
        MessageType::of_number(n) == Some(t) ==> t.number() == n,
        MessageType::of_number(n) is None <==> n == 0 || n > 0x000B,
{
}

/// A standard format and its number determine each other.
pub proof fn law_standard_format_numbers(f: StandardFormat, n: u32)
    ensures
        StandardFormat::of_number(f.number()) == Some(f),
        StandardFormat::of_number(n) == Some(f) ==> f.number() == n,
        StandardFormat::of_number(n) is None <==> n == 0 || n > 17,
{
}

/// The header of a message gives back the type, the flags and the payload, where
/// the payload's length fits in its field.
pub proof fn law_header_round_trip(kind: MessageType, flags: u16, payload: Seq<u8>)
    requires
        payload.len() < 0x1_0000_0000,
    ensures
        pdu::framed(kind, flags, payload).len() == 8 + payload.len(),
        bytes::le16_at(pdu::framed(kind, flags, payload), 0) == kind.number(),
        bytes::le16_at(pdu::framed(kind, flags, payload), 2) == flags,
        pdu::payload_of(pdu::framed(kind, flags, payload)) == payload,
{
    let n = payload.len() as u32;
    let data = pdu::framed(kind, flags, payload);
    assert(data.subrange(0, 2) == bytes::le16(kind.number()));
    bytes::lemma_le16_field(data, 0, kind.number());
    assert(data.subrange(2, 4) == bytes::le16(flags));
    bytes::lemma_le16_field(data, 2, flags);
    assert(data.subrange(4, 8) == bytes::le32(n));
    bytes::lemma_le32_field(data, 4, n);
    assert(data.subrange(8, 8 + n) == payload);
}

/// Capabilities are read back.
pub proof fn law_caps_round_trip(flags: u32, long_names: bool)
    ensures
        pdu::decode_pdu(
            pdu::framed(MessageType::ClipCaps, 0, pdu::caps_payload(flags)),
            long_names,
        ) == Ok::<PduView, pdu::CliprdrErrorView>(PduView::ClipCaps(flags)),
{
    let p = pdu::caps_payload(flags);
    law_header_round_trip(MessageType::ClipCaps, 0, p);
    assert(p.subrange(0, 2) == bytes::le16(1));
    bytes::lemma_le16_field(p, 0, 1);
    assert(p.subrange(4, 6) == bytes::le16(1));
    bytes::lemma_le16_field(p, 4, 1);
    assert(p.subrange(6, 8) == bytes::le16(12));
    bytes::lemma_le16_field(p, 6, 12);
    assert(p.subrange(12, 16) == bytes::le32(flags));
    bytes::lemma_le32_field(p, 12, flags);
    reveal_with_fuel(pdu::capability_flags, 2);
}

/// Names that a format list gives back: no U+0000, which ends a name, and no
/// supplementary character, which a reader of single units leaves out.
pub open spec fn plain_names(formats: Seq<FormatView>) -> bool {
    forall|i: int|
        0 <= i < formats.len() ==> utf16::no_nul(#[trigger] formats[i].name)
            && utf16::single_units(formats[i].name)
}

/// One record, whatever follows it.
proof fn lemma_record(f: FormatView, rest: Seq<u8>)
    requires
        utf16::no_nul(f.name),
        utf16::single_units(f.name),
    ensures
        pdu::long_record(pdu::format_bytes(f) + rest) == f,
        pdu::long_record_len(pdu::format_bytes(f) + rest) == pdu::format_bytes(f).len(),
        pdu::format_bytes(f).len() >= 4,
{
    let p = pdu::format_bytes(f) + rest;
    let u = utf16::encode_utf16(f.name);
    let body = utf16::unit_bytes(u);
    let tail = bytes::le16(0) + rest;
    assert(p.subrange(0, 4) == bytes::le32(f.id));
    bytes::lemma_le32_field(p, 0, f.id);
    assert(p.skip(4) == body + tail);
    let units = pdu::name_units(p);
    utf16::law_unit_bytes_round_trip(u, tail);
    utf16::lemma_encode_no_nul(f.name);
    assert(units.take(u.len() as int) == u);
    let n = u.len() as int;
    assert(p.skip(4)[2 * n] == 0 && p.skip(4)[2 * n + 1] == 0);
    assert(units[n] == 0);
    assert forall|i: int| 0 <= i < n implies units[i] != 0 by {
        assert(units.take(n)[i] == u[i]);
    }
    bytes::lemma_index_unique(units, 0u16, n);
    assert(bytes::before_first(units, 0u16) == u);
    utf16::law_unit_chars_round_trip(f.name);
}

/// A format list is read back from its payload.
pub proof fn law_format_list_payload_round_trip(formats: Seq<FormatView>)
    requires
        plain_names(formats),
    ensures
        pdu::long_formats(pdu::long_payload(formats)) == formats,
    decreases formats.len(),
{
    if formats.len() > 0 {
        let rest = formats.drop_first();
        assert(plain_names(rest)) by {
            assert forall|i: int| 0 <= i < rest.len() implies utf16::no_nul(
                #[trigger] rest[i].name,
            ) && utf16::single_units(rest[i].name) by {
                assert(rest[i] == formats[i + 1]);
            }
        }
        law_format_list_payload_round_trip(rest);
        let p = pdu::long_payload(formats);
        lemma_record(formats[0], pdu::long_payload(rest));
        assert(p.skip(pdu::format_bytes(formats[0]).len() as int) == pdu::long_payload(rest));
        assert(formats == seq![formats[0]] + rest);
    }
}

/// A format list is read back, whether or not long names were agreed on: the
/// flags say that its names are long.
pub proof fn law_format_list_round_trip(formats: Seq<FormatView>, long_names: bool)
    requires
        plain_names(formats),
        pdu::long_payload(formats).len() < 0x1_0000_0000,
    ensures
        pdu::decode_pdu(
            pdu::framed(MessageType::FormatList, 0, pdu::long_payload(formats)),
            long_names,
        ) == Ok::<PduView, pdu::CliprdrErrorView>(PduView::FormatList(formats)),
{
    law_header_round_trip(MessageType::FormatList, 0, pdu::long_payload(formats));
    law_format_list_payload_round_trip(formats);
    assert(0u16 & 0x0004u16 == 0) by (bit_vector);
}

/// The answer to a format list is read back.
pub proof fn law_format_list_response_round_trip(success: bool, long_names: bool)
    ensures
        pdu::decode_pdu(
            pdu::framed(
                MessageType::FormatListResponse,
                pdu::response_flags(success),
                Seq::empty(),
            ),
            long_names,
        ) == Ok::<PduView, pdu::CliprdrErrorView>(PduView::FormatListResponse(success)),
{
    law_header_round_trip(
        MessageType::FormatListResponse,
        pdu::response_flags(success),
        Seq::empty(),
    );
    pdu::law_response_flags(success);
}

/// A data request is read back.
pub proof fn law_data_request_round_trip(format_id: u32, long_names: bool)
    ensures
        pdu::decode_pdu(
            pdu::framed(MessageType::FormatDataRequest, 0, bytes::le32(format_id)),
            long_names,
        ) == Ok::<PduView, pdu::CliprdrErrorView>(PduView::FormatDataRequest(format_id)),
{
    let p = bytes::le32(format_id);
    law_header_round_trip(MessageType::FormatDataRequest, 0, p);
    assert(p.subrange(0, 4) == p);
    bytes::lemma_le32_field(p, 0, format_id);
}

/// An answer to a data request is read back; a failed one without data.
pub proof fn law_data_response_round_trip(r: DataResponseView, long_names: bool)
    requires
        r.data.len() < 0x1_0000_0000,
    ensures
        pdu::decode_pdu(
            pdu::framed(
                MessageType::FormatDataResponse,
                pdu::response_flags(r.success),
                r.data,
            ),
            long_names,
        ) == Ok::<PduView, pdu::CliprdrErrorView>(
            PduView::FormatDataResponse(
                DataResponseView {
                    success: r.success,
                    data: if r.success {
                        r.data
                    } else {
                        Seq::empty()
                    },
                },
            ),
        ),
{
    law_header_round_trip(
        MessageType::FormatDataResponse,
        pdu::response_flags(r.success),
        r.data,
    );
    pdu::law_response_flags(r.success);
}

/// The payload of a file request is read back.
#[verifier::spinoff_prover]
proof fn lemma_contents_request(r: FileContentsRequestPdu)
    ensures
        pdu::decode_contents_request(r.payload()) == Ok::<
            FileContentsRequestPdu,
            pdu::CliprdrErrorView,
        >(r),
        r.payload().len() <= 28,
{
    let p = r.payload();
    assert(bytes::le32_at(p, 0) == r.stream_id) by {
        assert(p.subrange(0, 4) == bytes::le32(r.stream_id));
        bytes::lemma_le32_field(p, 0, r.stream_id);
    }
    assert(bytes::le32_at(p, 4) == r.lindex) by {
        assert(p.subrange(4, 8) == bytes::le32(r.lindex));
        bytes::lemma_le32_field(p, 4, r.lindex);
    }
    assert(bytes::le32_at(p, 8) == r.flags.number()) by {
        assert(p.subrange(8, 12) == bytes::le32(r.flags.number()));
        bytes::lemma_le32_field(p, 8, r.flags.number());
    }
    assert(bytes::le32_at(p, 12) == r.position_low) by {
        assert(p.subrange(12, 16) == bytes::le32(r.position_low));
        bytes::lemma_le32_field(p, 12, r.position_low);
    }
    assert(bytes::le32_at(p, 16) == r.position_high) by {
        assert(p.subrange(16, 20) == bytes::le32(r.position_high));
        bytes::lemma_le32_field(p, 16, r.position_high);
    }
    assert(bytes::le32_at(p, 20) == r.cb_requested) by {
        assert(p.subrange(20, 24) == bytes::le32(r.cb_requested));
        bytes::lemma_le32_field(p, 20, r.cb_requested);
    }
    match r.clip_data_id {
        Some(id) => {
            assert(p.subrange(24, 28) == bytes::le32(id));
            bytes::lemma_le32_field(p, 24, id);
        },
        None => {},
    }
}

/// A file request is read back.
pub proof fn law_contents_request_round_trip(r: FileContentsRequestPdu, long_names: bool)
    ensures
        pdu::decode_pdu(
            pdu::framed(MessageType::FileContentsRequest, 0, r.payload()),
            long_names,
        ) == Ok::<PduView, pdu::CliprdrErrorView>(PduView::FileContentsRequest(r)),
{
    lemma_contents_request(r);
    law_header_round_trip(MessageType::FileContentsRequest, 0, r.payload());
}

/// An answer to a file request is read back; a failed one without data.
pub proof fn law_contents_response_round_trip(r: ContentsResponseView, long_names: bool)
    requires
        r.data.len() + 4 < 0x1_0000_0000,
    ensures
        pdu::decode_pdu(
            pdu::framed(
                MessageType::FileContentsResponse,
                pdu::response_flags(r.success),
                bytes::le32(r.stream_id) + r.data,
            ),
            long_names,
        ) == Ok::<PduView, pdu::CliprdrErrorView>(
            PduView::FileContentsResponse(
                ContentsResponseView {
                    success: r.success,
                    stream_id: r.stream_id,
                    data: if r.success {
                        r.data
                    } else {
                        Seq::empty()
                    },
                },
            ),
        ),
{
    let p = bytes::le32(r.stream_id) + r.data;
    law_header_round_trip(MessageType::FileContentsResponse, pdu::response_flags(r.success), p);
    pdu::law_response_flags(r.success);
    assert(p.subrange(0, 4) == bytes::le32(r.stream_id));
    bytes::lemma_le32_field(p, 0, r.stream_id);
    assert(p.skip(4) == r.data);
}

/// A size that was written as eight bytes is read back from a successful answer.
pub proof fn law_file_size_round_trip(stream_id: u32, size: u64)
    ensures
        (ContentsResponseView { success: true, stream_id, data: bytes::le64(size) }).file_size()
            == Some(size),
{
    let data = bytes::le64(size);
    assert(data.subrange(0, 8) == data);
    bytes::lemma_le64_field(data, 0, size);
}

/// The name that a descriptor gives back: the first 259 units of the name, up to
/// a U+0000, with U+FFFD for half of a pair at the cut.
pub open spec fn stored_name(name: Seq<char>) -> Seq<char> {
    utf16::decode_utf16(bytes::before_first(pdu::kept_units(name), 0u16))
}

/// A descriptor with its name as it is stored.
pub open spec fn stored(d: DescriptorView) -> DescriptorView {
    DescriptorView { file_name: stored_name(d.file_name), ..d }
}

/// A name that fits is stored as it is.
pub proof fn law_stored_name(name: Seq<char>)
    requires
        utf16::no_nul(name),
        utf16::encode_utf16(name).len() <= 259,
    ensures
        stored_name(name) == name,
{
    let units = utf16::encode_utf16(name);
    utf16::lemma_encode_no_nul(name);
    bytes::lemma_index_unique(units, 0u16, units.len() as int);
    assert(bytes::before_first(units, 0u16) == units);
    utf16::law_utf16_round_trip(name);
}

/// Bytes that start with one part after another hold each at its place.
proof fn lemma_prefix_part(data: Seq<u8>, before: Seq<u8>, part: Seq<u8>)
    requires
        before.len() + part.len() <= data.len(),
        data.take((before.len() + part.len()) as int) == before + part,
    ensures
        data.take(before.len() as int) == before,
        data.subrange(before.len() as int, (before.len() + part.len()) as int) == part,
{
    let n = before.len() as int;
    let both = data.take((before.len() + part.len()) as int);
    assert(data.take(n) == both.take(n));
    assert(both.take(n) == before);
    assert(data.subrange(n, n + part.len()) == both.skip(n));
    assert(both.skip(n) == part);
}

/// The fields before the name are read back.
proof fn lemma_fixed_fields(d: DescriptorView, data: Seq<u8>)
    requires
        data.len() >= 72,
        data.take(72) == d.fixed_bytes(),
    ensures
        bytes::le32_at(data, 0) == d.flags,
        bytes::le32_at(data, 36) == d.file_attributes,
        bytes::le64_at(data, 40) == d.creation_time,
        bytes::le64_at(data, 48) == d.last_access_time,
        bytes::le64_at(data, 56) == d.last_write_time,
        bytes::le32_at(data, 64) == bytes::high_u32(d.file_size),
        bytes::le32_at(data, 68) == bytes::low_u32(d.file_size),
{
    let a = bytes::le32(d.flags);
    let b = a + pdu::zeros(32);
    let c = b + bytes::le32(d.file_attributes);
    let e = c + bytes::le64(d.creation_time);
    let f = e + bytes::le64(d.last_access_time);
    let g = f + bytes::le64(d.last_write_time);
    let h = g + bytes::le32(bytes::high_u32(d.file_size));
    lemma_prefix_part(data, h, bytes::le32(bytes::low_u32(d.file_size)));
    bytes::lemma_le32_field(data, 68, bytes::low_u32(d.file_size));
    lemma_prefix_part(data, g, bytes::le32(bytes::high_u32(d.file_size)));
    bytes::lemma_le32_field(data, 64, bytes::high_u32(d.file_size));
    lemma_prefix_part(data, f, bytes::le64(d.last_write_time));
    bytes::lemma_le64_field(data, 56, d.last_write_time);
    lemma_prefix_part(data, e, bytes::le64(d.last_access_time));
    bytes::lemma_le64_field(data, 48, d.last_access_time);
    lemma_prefix_part(data, c, bytes::le64(d.creation_time));
    bytes::lemma_le64_field(data, 40, d.creation_time);
    lemma_prefix_part(data, b, bytes::le32(d.file_attributes));
    bytes::lemma_le32_field(data, 36, d.file_attributes);
    lemma_prefix_part(data, a, pdu::zeros(32));
    assert(data.subrange(0, 4) == data.take(4));
    bytes::lemma_le32_field(data, 0, d.flags);
}

/// The name field is read back.
proof fn lemma_name_field(name: Seq<char>, field: Seq<u8>)
    requires
        field == pdu::name_field(name),
    ensures
        field.len() == 520,
        utf16::decode_utf16(bytes::before_first(utf16::byte_units(field), 0u16)) == stored_name(
            name,
        ),
{
    let units = pdu::kept_units(name);
    let pad = pdu::zeros((520 - 2 * units.len()) as nat);
    utf16::law_unit_bytes_round_trip(units, pad);
    let read = utf16::byte_units(field);
    let n = units.len() as int;
    assert(field[2 * n] == 0 && field[2 * n + 1] == 0);
    assert(read[n] == 0);
    lemma_before_first_padded(units, read);
}

/// The parts of a descriptor's bytes.
proof fn lemma_descriptor_parts(d: DescriptorView, after: Seq<u8>)
    ensures
        d.bytes().len() == 592,
        (d.bytes() + after).take(72) == d.fixed_bytes(),
        (d.bytes() + after).subrange(72, 592) == pdu::name_field(d.file_name),
{
    let fixed = d.fixed_bytes();
    let name = pdu::name_field(d.file_name);
    assert(fixed.len() == 72);
    lemma_name_field(d.file_name, name);
    assert((fixed + name + after).take(72) == fixed);
    assert((fixed + name + after).subrange(72, 592) == name);
}

/// A descriptor is read back from its bytes, whatever follows them, with the name
/// as it was stored.
pub proof fn law_descriptor_round_trip(d: DescriptorView, after: Seq<u8>)
    ensures
        d.bytes().len() == 592,
        pdu::decode_descriptor(d.bytes() + after) == Ok::<DescriptorView, pdu::CliprdrErrorView>(
            stored(d),
        ),
{
    let data = d.bytes() + after;
    lemma_descriptor_parts(d, after);
    lemma_fixed_fields(d, data);
    bytes::law_halves_join(d.file_size);
    lemma_name_field(d.file_name, pdu::name_field(d.file_name));
    let r = pdu::read_descriptor(data);
    assert(r.file_name == stored_name(d.file_name));
    assert(r.file_size == d.file_size);
    assert(r == stored(d));
}

/// Units that are followed by a zero unit end where they end alone.
proof fn lemma_before_first_padded(units: Seq<u16>, read: Seq<u16>)
    requires
        units.len() < read.len(),
        read.take(units.len() as int) == units,
        read[units.len() as int] == 0,
    ensures
        bytes::before_first(read, 0u16) == bytes::before_first(units, 0u16),
{
    bytes::lemma_index_from(units, 0u16, 0);
    let n = bytes::index_from(units, 0u16, 0);
    assert forall|i: int| 0 <= i < units.len() implies read[i] == units[i] by {
        assert(read.take(units.len() as int)[i] == units[i]);
    }
    bytes::lemma_index_unique(read, 0u16, n);
    assert(read.take(n) == units.take(n));
}

/// A descriptor is 592 bytes long.
proof fn lemma_descriptor_len(d: DescriptorView)
    ensures
        d.bytes().len() == 592,
{
    law_descriptor_round_trip(d, Seq::empty());
}

/// The places of bytes that others follow, and of those that follow.
proof fn lemma_slot_in_joined(a: Seq<u8>, b: Seq<u8>, at: int)
    requires
        0 <= at,
        b.len() == 592,
    ensures
        at + 592 <= a.len() ==> (a + b).subrange(at, at + 592) == a.subrange(at, at + 592),
        at == a.len() ==> (a + b).subrange(at, at + 592) == b,
{
    if at + 592 <= a.len() {
        assert((a + b).subrange(at, at + 592) =~= a.subrange(at, at + 592));
    }
    if at == a.len() {
        assert((a + b).subrange(at, at + 592) =~= b);
    }
}

/// The descriptors of a list lie 592 bytes apart.
#[verifier::spinoff_prover]
proof fn lemma_descriptor_slots(files: Seq<DescriptorView>, i: int)
    ensures
        pdu::descriptor_bytes(files).len() == 592 * files.len(),
        0 <= i < files.len() ==> pdu::descriptor_bytes(files).subrange(592 * i, 592 * i + 592)
            == files[i].bytes(),
    decreases files.len(),
{
    if files.len() > 0 {
        let front = files.drop_last();
        let before = pdu::descriptor_bytes(front);
        let last = files.last().bytes();
        lemma_descriptor_slots(front, i);
        lemma_descriptor_len(files.last());
        assert(pdu::descriptor_bytes(files) == before + last);
        if 0 <= i < files.len() {
            lemma_slot_in_joined(before, last, 592 * i);
            if i < front.len() {
                assert(front[i] == files[i]);
            }
        }
    }
}

/// The descriptor at place `i` of a file list is read back.
proof fn lemma_slot_read(files: Seq<DescriptorView>, i: int)
    requires
        0 <= i < files.len(),
    ensures
        pdu::file_list_bytes(files).len() == 4 + 592 * files.len(),
        pdu::read_descriptor(pdu::descriptor_slot(pdu::file_list_bytes(files), i)) == stored(
            files[i],
        ),
{
    let data = pdu::file_list_bytes(files);
    lemma_descriptor_slots(files, i);
    assert(pdu::descriptor_slot(data, i) == pdu::descriptor_bytes(files).subrange(
        592 * i,
        592 * i + 592,
    ));
    law_descriptor_round_trip(files[i], Seq::empty());
    assert(files[i].bytes() + Seq::<u8>::empty() == files[i].bytes());
}

/// How long a file list is.
pub proof fn lemma_file_list_len(files: Seq<DescriptorView>)
    ensures
        pdu::file_list_bytes(files).len() == 4 + 592 * files.len(),
{
    lemma_descriptor_slots(files, 0);
}

/// The count of a file list is read back.
#[verifier::spinoff_prover]
proof fn lemma_file_count(files: Seq<DescriptorView>)
    requires
        files.len() < 0x1_0000_0000,
    ensures
        pdu::file_list_bytes(files).len() == 4 + 592 * files.len(),
        bytes::le32_at(pdu::file_list_bytes(files), 0) == files.len(),
{
    lemma_file_list_len(files);
    bytes::lemma_count_head(files.len(), pdu::descriptor_bytes(files));
}

/// A file list is read back, each name as it was stored.
pub proof fn law_file_list_round_trip(files: Seq<DescriptorView>)
    requires
        files.len() < 0x1_0000_0000,
    ensures
        pdu::decode_file_list(pdu::file_list_bytes(files)) == Ok::<
            Seq<DescriptorView>,
            pdu::CliprdrErrorView,
        >(Seq::new(files.len(), |i: int| stored(files[i]))),
{
    let data = pdu::file_list_bytes(files);
    let n = files.len() as u32;
    lemma_file_count(files);
    let read = Seq::new(
        n as nat,
        |i: int| pdu::read_descriptor(pdu::descriptor_slot(data, i)),
    );
    assert forall|i: int| 0 <= i < files.len() implies read[i] == stored(files[i]) by {
        lemma_slot_read(files, i);
    }
    assert(read == Seq::new(files.len(), |i: int| stored(files[i])));
}

/// A later Unix time never has an earlier FILETIME.
pub proof fn law_filetime_keeps_order(a: u64, b: u64)
    requires
        a <= b,
    ensures
        pdu::filetime_of(a) <= pdu::filetime_of(b),
{
}

} // verus!
