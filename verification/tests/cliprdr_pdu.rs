//! The messages of the clipboard channel.
use yard::cliprdr::pdu::{
    fd_flags, file_attributes, unix_to_filetime, ClipCapsPdu, ClipboardFormat, CliprdrFileList,
    CliprdrPdu, FileContentsFlags, FileContentsRequestPdu, FileContentsResponsePdu, FileDescriptorW,
    FormatDataRequestPdu, FormatDataResponsePdu, FormatListPdu, FormatListResponsePdu,
    GeneralCapabilityFlags, MessageFlags, MessageType, StandardFormat, FILEDESCRIPTORW_SIZE,
};

#[test]
fn pdu_test_message_type_conversion() {
    assert_eq!(
        MessageType::try_from(0x0001).unwrap(),
        MessageType::MonitorReady
    );
    assert_eq!(
        MessageType::try_from(0x0002).unwrap(),
        MessageType::FormatList
    );
    assert_eq!(
        MessageType::try_from(0x0003).unwrap(),
        MessageType::FormatListResponse
    );
    assert_eq!(
        MessageType::try_from(0x0007).unwrap(),
        MessageType::ClipCaps
    );
    assert!(MessageType::try_from(0xFFFF).is_err());
}

#[test]
fn test_message_flags() {
    let flags = MessageFlags::from_bits(MessageFlags::RESPONSE_OK);
    assert!(flags.is_ok());
    assert!(!flags.is_fail());

    let flags = MessageFlags::from_bits(MessageFlags::RESPONSE_FAIL);
    assert!(!flags.is_ok());
    assert!(flags.is_fail());

    let flags = MessageFlags::from_bits(MessageFlags::ASCII_NAMES);
    assert!(flags.has_ascii_names());
}

#[test]
fn test_standard_format_conversion() {
    assert_eq!(StandardFormat::try_from(1).unwrap(), StandardFormat::Text);
    assert_eq!(
        StandardFormat::try_from(13).unwrap(),
        StandardFormat::UnicodeText
    );
    assert_eq!(StandardFormat::try_from(15).unwrap(), StandardFormat::Hdrop);
    assert!(StandardFormat::try_from(255).is_err());
}

#[test]
fn test_clipboard_format() {
    let text = ClipboardFormat::standard(StandardFormat::Text);
    assert!(text.is_text());
    assert!(!text.is_file_list());

    let unicode = ClipboardFormat::standard(StandardFormat::UnicodeText);
    assert!(unicode.is_text());

    let files = ClipboardFormat::standard(StandardFormat::Hdrop);
    assert!(files.is_file_list());
    assert!(!files.is_text());

    let custom = ClipboardFormat::new(0xC001, "CustomFormat");
    assert!(!custom.is_text());
    assert!(!custom.is_file_list());
    assert_eq!(custom.name, "CustomFormat");
}

#[test]
fn test_general_capability_flags() {
    let flags = GeneralCapabilityFlags::from_bits(GeneralCapabilityFlags::USE_LONG_FORMAT_NAMES);
    assert!(flags.use_long_format_names());
    assert!(!flags.stream_fileclip_enabled());

    let combined = flags.union(GeneralCapabilityFlags::from_bits(GeneralCapabilityFlags::STREAM_FILECLIP_ENABLED));
    assert!(combined.use_long_format_names());
    assert!(combined.stream_fileclip_enabled());
}

#[test]
fn test_clip_caps_encode_decode() {
    let caps = ClipCapsPdu::default_client();
    let encoded = caps.encode();

    // Header check
    assert_eq!(
        u16::from_le_bytes([encoded[0], encoded[1]]),
        MessageType::ClipCaps.as_u16()
    );
    assert_eq!(u16::from_le_bytes([encoded[2], encoded[3]]), 0); // flags

    // Decode
    let decoded = CliprdrPdu::decode(&encoded, true).unwrap();
    if let CliprdrPdu::ClipCaps(caps) = decoded {
        assert!(caps.general_flags.use_long_format_names());
    } else {
        panic!("Expected ClipCaps PDU");
    }
}

#[test]
fn test_format_list_encode_decode() {
    let formats = vec![
        ClipboardFormat::standard(StandardFormat::UnicodeText),
        ClipboardFormat::new(0xC001, "HTML"),
    ];
    let format_list = FormatListPdu::new(formats);
    let encoded = format_list.encode();

    // Header check
    assert_eq!(
        u16::from_le_bytes([encoded[0], encoded[1]]),
        MessageType::FormatList.as_u16()
    );

    // Decode
    let decoded = CliprdrPdu::decode(&encoded, true).unwrap();
    if let CliprdrPdu::FormatList(list) = decoded {
        assert_eq!(list.formats.len(), 2);
        assert_eq!(list.formats[0].id, StandardFormat::UnicodeText.as_u32());
        assert_eq!(list.formats[1].id, 0xC001);
        assert_eq!(list.formats[1].name, "HTML");
    } else {
        panic!("Expected FormatList PDU");
    }
}

#[test]
fn test_format_list_empty() {
    let format_list = FormatListPdu::empty();
    let encoded = format_list.encode();

    let decoded = CliprdrPdu::decode(&encoded, true).unwrap();
    if let CliprdrPdu::FormatList(list) = decoded {
        assert!(list.formats.is_empty());
    } else {
        panic!("Expected FormatList PDU");
    }
}

#[test]
fn test_format_list_response_ok() {
    let response = FormatListResponsePdu::ok();
    let encoded = response.encode();

    // Header check
    assert_eq!(
        u16::from_le_bytes([encoded[0], encoded[1]]),
        MessageType::FormatListResponse.as_u16()
    );
    // Flags should have RESPONSE_OK
    let flags = MessageFlags::from_bits(u16::from_le_bytes([encoded[2], encoded[3]]));
    assert!(flags.is_ok());

    let decoded = CliprdrPdu::decode(&encoded, true).unwrap();
    if let CliprdrPdu::FormatListResponse(resp) = decoded {
        assert!(resp.success);
    } else {
        panic!("Expected FormatListResponse PDU");
    }
}

#[test]
fn test_format_list_response_fail() {
    let response = FormatListResponsePdu::fail();
    let encoded = response.encode();

    let flags = MessageFlags::from_bits(u16::from_le_bytes([encoded[2], encoded[3]]));
    assert!(flags.is_fail());

    let decoded = CliprdrPdu::decode(&encoded, true).unwrap();
    if let CliprdrPdu::FormatListResponse(resp) = decoded {
        assert!(!resp.success);
    } else {
        panic!("Expected FormatListResponse PDU");
    }
}

#[test]
fn test_monitor_ready_decode() {
    // Monitor Ready PDU with empty payload
    let data = [
        0x01, 0x00, // msgType = MonitorReady
        0x00, 0x00, // msgFlags
        0x00, 0x00, 0x00, 0x00, // dataLen = 0
    ];

    let decoded = CliprdrPdu::decode(&data, true).unwrap();
    assert!(matches!(decoded, CliprdrPdu::MonitorReady(_)));
}

#[test]
fn test_decode_short_payload_error() {
    let data = [0x01, 0x00]; // Too short for header
    let result = CliprdrPdu::decode(&data, true);
    assert!(result.is_err());
}

#[test]
fn test_format_data_request_unicode() {
    let request = FormatDataRequestPdu::unicode_text();
    assert_eq!(
        request.requested_format_id,
        StandardFormat::UnicodeText.as_u32()
    );

    let encoded = request.encode();

    // Header check
    assert_eq!(
        u16::from_le_bytes([encoded[0], encoded[1]]),
        MessageType::FormatDataRequest.as_u16()
    );
    // dataLen should be 4
    assert_eq!(
        u32::from_le_bytes([encoded[4], encoded[5], encoded[6], encoded[7]]),
        4
    );

    // Decode
    let decoded = CliprdrPdu::decode(&encoded, true).unwrap();
    if let CliprdrPdu::FormatDataRequest(req) = decoded {
        assert_eq!(req.requested_format_id, StandardFormat::UnicodeText.as_u32());
    } else {
        panic!("Expected FormatDataRequest PDU");
    }
}

#[test]
fn test_format_data_request_text() {
    let request = FormatDataRequestPdu::text();
    assert_eq!(request.requested_format_id, StandardFormat::Text.as_u32());
}

#[test]
fn test_format_data_request_custom() {
    let request = FormatDataRequestPdu::new(0xC001);
    assert_eq!(request.requested_format_id, 0xC001);
}

#[test]
fn test_format_data_request_roundtrip() {
    // Test that encode then decode produces the same result
    let original = FormatDataRequestPdu::new(0xC123);
    let encoded = original.encode();

    // Decode the full PDU
    let decoded = CliprdrPdu::decode(&encoded, true).unwrap();
    if let CliprdrPdu::FormatDataRequest(req) = decoded {
        assert_eq!(req.requested_format_id, original.requested_format_id);
    } else {
        panic!("Expected FormatDataRequest PDU");
    }
}

#[test]
fn test_format_data_response_roundtrip() {
    // Test success response round-trip
    let original_data = vec![0x48, 0x65, 0x6C, 0x6C, 0x6F]; // "Hello"
    let original = FormatDataResponsePdu::ok(original_data.clone());
    let encoded = original.encode();

    let decoded = CliprdrPdu::decode(&encoded, true).unwrap();
    if let CliprdrPdu::FormatDataResponse(resp) = decoded {
        assert!(resp.success);
        assert_eq!(resp.data, original_data);
    } else {
        panic!("Expected FormatDataResponse PDU");
    }

    // Test fail response round-trip
    let fail_response = FormatDataResponsePdu::fail();
    let encoded_fail = fail_response.encode();

    let decoded_fail = CliprdrPdu::decode(&encoded_fail, true).unwrap();
    if let CliprdrPdu::FormatDataResponse(resp) = decoded_fail {
        assert!(!resp.success);
    } else {
        panic!("Expected FormatDataResponse PDU");
    }
}

#[test]
fn test_format_data_response_ok() {
    let data = vec![0x48, 0x00, 0x69, 0x00, 0x00, 0x00]; // "Hi" in UTF-16LE + null
    let response = FormatDataResponsePdu::ok(data.clone());
    assert!(response.success);
    assert_eq!(response.data, data);

    let encoded = response.encode();

    // Header check
    assert_eq!(
        u16::from_le_bytes([encoded[0], encoded[1]]),
        MessageType::FormatDataResponse.as_u16()
    );
    // Flags should have RESPONSE_OK
    let flags = MessageFlags::from_bits(u16::from_le_bytes([encoded[2], encoded[3]]));
    assert!(flags.is_ok());

    // Decode
    let decoded = CliprdrPdu::decode(&encoded, true).unwrap();
    if let CliprdrPdu::FormatDataResponse(resp) = decoded {
        assert!(resp.success);
        assert_eq!(resp.data, data);
    } else {
        panic!("Expected FormatDataResponse PDU");
    }
}

#[test]
fn test_format_data_response_fail() {
    let response = FormatDataResponsePdu::fail();
    assert!(!response.success);
    assert!(response.data.is_empty());

    let encoded = response.encode();

    let flags = MessageFlags::from_bits(u16::from_le_bytes([encoded[2], encoded[3]]));
    assert!(flags.is_fail());

    let decoded = CliprdrPdu::decode(&encoded, true).unwrap();
    if let CliprdrPdu::FormatDataResponse(resp) = decoded {
        assert!(!resp.success);
    } else {
        panic!("Expected FormatDataResponse PDU");
    }
}

#[test]
fn test_format_data_response_utf16_to_utf8() {
    // "Hello" in UTF-16LE: H(0x48 0x00) e(0x65 0x00) l(0x6C 0x00) l(0x6C 0x00) o(0x6F 0x00) null(0x00 0x00)
    let data = vec![
        0x48, 0x00, 0x65, 0x00, 0x6C, 0x00, 0x6C, 0x00, 0x6F, 0x00, 0x00, 0x00,
    ];
    let response = FormatDataResponsePdu::ok(data);

    let text = response.as_utf8_from_unicode().unwrap();
    assert_eq!(text, "Hello");
}

#[test]
fn test_format_data_response_utf16_with_bom() {
    // UTF-16LE BOM (0xFF 0xFE) + "Hi" + null
    let data = vec![
        0xFF, 0xFE, // BOM
        0x48, 0x00, // H
        0x69, 0x00, // i
        0x00, 0x00, // null
    ];
    let response = FormatDataResponsePdu::ok(data);

    let text = response.as_utf8_from_unicode().unwrap();
    assert_eq!(text, "Hi");
}

#[test]
fn test_format_data_response_unicode_special_chars() {
    // "Héllo" with é (U+00E9) in UTF-16LE
    let data = vec![
        0x48, 0x00, // H
        0xE9, 0x00, // é (U+00E9)
        0x6C, 0x00, // l
        0x6C, 0x00, // l
        0x6F, 0x00, // o
        0x00, 0x00, // null
    ];
    let response = FormatDataResponsePdu::ok(data);

    let text = response.as_utf8_from_unicode().unwrap();
    assert_eq!(text, "Héllo");
}

#[test]
fn test_format_data_response_unicode_cjk() {
    // "日本語" (Japanese) in UTF-16LE
    // 日 = U+65E5, 本 = U+672C, 語 = U+8A9E
    let data = vec![
        0xE5, 0x65, // 日
        0x2C, 0x67, // 本
        0x9E, 0x8A, // 語
        0x00, 0x00, // null
    ];
    let response = FormatDataResponsePdu::ok(data);

    let text = response.as_utf8_from_unicode().unwrap();
    assert_eq!(text, "日本語");
}

#[test]
fn test_format_data_response_unicode_emoji() {
    // "Hi👋" with waving hand emoji (U+1F44B) - requires surrogate pair in UTF-16
    // U+1F44B = D83D DC4B in UTF-16 surrogate pair
    let data = vec![
        0x48, 0x00, // H
        0x69, 0x00, // i
        0x3D, 0xD8, // High surrogate D83D
        0x4B, 0xDC, // Low surrogate DC4B
        0x00, 0x00, // null
    ];
    let response = FormatDataResponsePdu::ok(data);

    let text = response.as_utf8_from_unicode().unwrap();
    assert_eq!(text, "Hi👋");
}

#[test]
fn test_format_data_response_unicode_rtl() {
    // "שלום" (Hebrew "Shalom") in UTF-16LE
    // ש = U+05E9, ל = U+05DC, ו = U+05D5, ם = U+05DD
    let data = vec![
        0xE9, 0x05, // ש
        0xDC, 0x05, // ל
        0xD5, 0x05, // ו
        0xDD, 0x05, // ם
        0x00, 0x00, // null
    ];
    let response = FormatDataResponsePdu::ok(data);

    let text = response.as_utf8_from_unicode().unwrap();
    assert_eq!(text, "שלום");
}

#[test]
fn test_format_data_response_ansi() {
    let data = vec![0x48, 0x65, 0x6C, 0x6C, 0x6F, 0x00]; // "Hello" + null
    let response = FormatDataResponsePdu::ok(data);

    let text = response.as_utf8_from_ansi().unwrap();
    assert_eq!(text, "Hello");
}

#[test]
fn test_format_data_response_empty_fails() {
    let response = FormatDataResponsePdu::fail();
    assert!(response.as_utf8_from_unicode().is_none());
    assert!(response.as_utf8_from_ansi().is_none());
}

#[test]
fn test_file_contents_request_size() {
    let request = FileContentsRequestPdu::size(1, 0);
    assert_eq!(request.stream_id, 1);
    assert_eq!(request.lindex, 0);
    assert!(matches!(request.flags, FileContentsFlags::Size));
    assert_eq!(request.offset(), 0);

    let encoded = request.encode();

    // Header check
    assert_eq!(
        u16::from_le_bytes([encoded[0], encoded[1]]),
        MessageType::FileContentsRequest.as_u16()
    );

    // Decode
    let decoded = CliprdrPdu::decode(&encoded, true).unwrap();
    if let CliprdrPdu::FileContentsRequest(req) = decoded {
        assert_eq!(req.stream_id, 1);
        assert_eq!(req.lindex, 0);
        assert!(matches!(req.flags, FileContentsFlags::Size));
    } else {
        panic!("Expected FileContentsRequest PDU");
    }
}

#[test]
fn test_file_contents_request_range() {
    let request = FileContentsRequestPdu::range(42, 3, 0x100000000, 65536);
    assert_eq!(request.stream_id, 42);
    assert_eq!(request.lindex, 3);
    assert!(matches!(request.flags, FileContentsFlags::Range));
    assert_eq!(request.offset(), 0x100000000);
    assert_eq!(request.cb_requested, 65536);
    assert_eq!(request.position_high, 1);
    assert_eq!(request.position_low, 0);

    let encoded = request.encode();
    let decoded = CliprdrPdu::decode(&encoded, true).unwrap();
    if let CliprdrPdu::FileContentsRequest(req) = decoded {
        assert_eq!(req.stream_id, 42);
        assert_eq!(req.lindex, 3);
        assert_eq!(req.offset(), 0x100000000);
        assert_eq!(req.cb_requested, 65536);
    } else {
        panic!("Expected FileContentsRequest PDU");
    }
}

#[test]
fn test_file_contents_response_size() {
    // File size response: 8 bytes containing u64 file size
    let file_size: u64 = 1_234_567_890;
    let size_bytes = file_size.to_le_bytes().to_vec();
    let response = FileContentsResponsePdu::ok(1, size_bytes);

    assert!(response.success);
    assert_eq!(response.stream_id, 1);
    assert_eq!(response.as_file_size(), Some(1_234_567_890));

    let encoded = response.encode();

    // Header check
    assert_eq!(
        u16::from_le_bytes([encoded[0], encoded[1]]),
        MessageType::FileContentsResponse.as_u16()
    );
    let flags = MessageFlags::from_bits(u16::from_le_bytes([encoded[2], encoded[3]]));
    assert!(flags.is_ok());

    // Decode
    let decoded = CliprdrPdu::decode(&encoded, true).unwrap();
    if let CliprdrPdu::FileContentsResponse(resp) = decoded {
        assert!(resp.success);
        assert_eq!(resp.stream_id, 1);
        assert_eq!(resp.as_file_size(), Some(1_234_567_890));
    } else {
        panic!("Expected FileContentsResponse PDU");
    }
}

#[test]
fn test_file_contents_response_data() {
    // File content response
    let content = vec![0x48, 0x65, 0x6C, 0x6C, 0x6F]; // "Hello"
    let response = FileContentsResponsePdu::ok(2, content.clone());

    assert!(response.success);
    assert_eq!(response.stream_id, 2);
    assert_eq!(response.data, content);
    // Should not be a valid file size (wrong length)
    assert_eq!(response.as_file_size(), None);

    let encoded = response.encode();
    let decoded = CliprdrPdu::decode(&encoded, true).unwrap();
    if let CliprdrPdu::FileContentsResponse(resp) = decoded {
        assert_eq!(resp.data, content);
    } else {
        panic!("Expected FileContentsResponse PDU");
    }
}

#[test]
fn test_file_contents_response_fail() {
    let response = FileContentsResponsePdu::fail(5);

    assert!(!response.success);
    assert_eq!(response.stream_id, 5);
    assert!(response.data.is_empty());

    let encoded = response.encode();
    let flags = MessageFlags::from_bits(u16::from_le_bytes([encoded[2], encoded[3]]));
    assert!(flags.is_fail());

    let decoded = CliprdrPdu::decode(&encoded, true).unwrap();
    if let CliprdrPdu::FileContentsResponse(resp) = decoded {
        assert!(!resp.success);
        assert_eq!(resp.stream_id, 5);
    } else {
        panic!("Expected FileContentsResponse PDU");
    }
}

#[test]
fn test_file_descriptor_decode() {
    // Create a minimal FILEDESCRIPTORW (592 bytes)
    let mut data = vec![0u8; FILEDESCRIPTORW_SIZE];

    // dwFlags = FD_FILESIZE | FD_ATTRIBUTES (0x44)
    data[0..4].copy_from_slice(&0x44u32.to_le_bytes());

    // dwFileAttributes = FILE_ATTRIBUTE_NORMAL (0x80)
    data[36..40].copy_from_slice(&0x80u32.to_le_bytes());

    // nFileSizeHigh = 0, nFileSizeLow = 12345
    data[64..68].copy_from_slice(&0u32.to_le_bytes());
    data[68..72].copy_from_slice(&12345u32.to_le_bytes());

    // cFileName = "test.txt" in UTF-16LE
    let filename = "test.txt";
    let mut offset = 72;
    for ch in filename.encode_utf16() {
        data[offset..offset + 2].copy_from_slice(&ch.to_le_bytes());
        offset += 2;
    }
    // Null terminator already there (vec initialized with zeros)

    let descriptor = FileDescriptorW::decode(&data).unwrap();

    assert_eq!(descriptor.flags, 0x44);
    assert!(descriptor.has_file_size());
    assert!(descriptor.has_attributes());
    assert!(!descriptor.is_directory());
    assert_eq!(descriptor.file_size, 12345);
    assert_eq!(descriptor.file_name, "test.txt");
}

#[test]
fn test_file_descriptor_directory() {
    let mut data = vec![0u8; FILEDESCRIPTORW_SIZE];

    // dwFlags = FD_ATTRIBUTES (0x04)
    data[0..4].copy_from_slice(&0x04u32.to_le_bytes());

    // dwFileAttributes = FILE_ATTRIBUTE_DIRECTORY (0x10)
    data[36..40].copy_from_slice(&0x10u32.to_le_bytes());

    // cFileName = "Documents" in UTF-16LE
    let filename = "Documents";
    let mut offset = 72;
    for ch in filename.encode_utf16() {
        data[offset..offset + 2].copy_from_slice(&ch.to_le_bytes());
        offset += 2;
    }

    let descriptor = FileDescriptorW::decode(&data).unwrap();

    assert!(descriptor.is_directory());
    assert_eq!(descriptor.file_name, "Documents");
}

#[test]
fn test_cliprdr_file_list_decode() {
    // Create a file list with 2 files
    let mut data = Vec::new();

    // cItems = 2
    data.extend_from_slice(&2u32.to_le_bytes());

    // File 1: "file1.txt"
    let mut file1 = vec![0u8; FILEDESCRIPTORW_SIZE];
    file1[0..4].copy_from_slice(&0x40u32.to_le_bytes()); // FD_FILESIZE
    file1[68..72].copy_from_slice(&100u32.to_le_bytes()); // size = 100
    let name1 = "file1.txt";
    let mut offset = 72;
    for ch in name1.encode_utf16() {
        file1[offset..offset + 2].copy_from_slice(&ch.to_le_bytes());
        offset += 2;
    }
    data.extend_from_slice(&file1);

    // File 2: "file2.pdf"
    let mut file2 = vec![0u8; FILEDESCRIPTORW_SIZE];
    file2[0..4].copy_from_slice(&0x40u32.to_le_bytes()); // FD_FILESIZE
    file2[68..72].copy_from_slice(&500u32.to_le_bytes()); // size = 500
    let name2 = "file2.pdf";
    offset = 72;
    for ch in name2.encode_utf16() {
        file2[offset..offset + 2].copy_from_slice(&ch.to_le_bytes());
        offset += 2;
    }
    data.extend_from_slice(&file2);

    let file_list = CliprdrFileList::decode(&data).unwrap();

    assert_eq!(file_list.count(), 2);
    let names: Vec<&str> = file_list.file_names();
    assert_eq!(names, vec!["file1.txt", "file2.pdf"]);
    assert_eq!(file_list.files[0].file_size, 100);
    assert_eq!(file_list.files[1].file_size, 500);
}

#[test]
fn test_cliprdr_file_list_empty() {
    // Empty file list
    let data = vec![0, 0, 0, 0]; // cItems = 0

    let file_list = CliprdrFileList::decode(&data).unwrap();
    assert_eq!(file_list.count(), 0);
}

#[test]
fn test_file_descriptor_unicode_filename() {
    let mut data = vec![0u8; FILEDESCRIPTORW_SIZE];

    // dwFlags = FD_FILESIZE
    data[0..4].copy_from_slice(&0x40u32.to_le_bytes());
    data[68..72].copy_from_slice(&1000u32.to_le_bytes());

    // cFileName = "文書.txt" (Japanese "document.txt") in UTF-16LE
    let filename = "文書.txt";
    let mut offset = 72;
    for ch in filename.encode_utf16() {
        data[offset..offset + 2].copy_from_slice(&ch.to_le_bytes());
        offset += 2;
    }

    let descriptor = FileDescriptorW::decode(&data).unwrap();
    assert_eq!(descriptor.file_name, "文書.txt");
}

#[test]
fn test_file_contents_flags() {
    assert_eq!(FileContentsFlags::Size.as_u32(), 0x0001);
    assert_eq!(FileContentsFlags::Range.as_u32(), 0x0002);
}

#[test]
fn test_fd_flags_constants() {
    assert_eq!(fd_flags::FD_CLSID, 0x0001);
    assert_eq!(fd_flags::FD_SIZEPOINT, 0x0002);
    assert_eq!(fd_flags::FD_ATTRIBUTES, 0x0004);
    assert_eq!(fd_flags::FD_CREATETIME, 0x0008);
    assert_eq!(fd_flags::FD_ACCESSTIME, 0x0010);
    assert_eq!(fd_flags::FD_WRITETIME, 0x0020);
    assert_eq!(fd_flags::FD_FILESIZE, 0x0040);
    assert_eq!(fd_flags::FD_PROGRESSUI, 0x4000);
    assert_eq!(fd_flags::FD_LINKUI, 0x8000);
}

#[test]
fn test_unix_to_filetime() {
    // Unix epoch (1970-01-01 00:00:00) should convert correctly
    let filetime = unix_to_filetime(0);
    // Expected: 11644473600 * 10000000 = 116444736000000000
    assert_eq!(filetime, 116_444_736_000_000_000);

    // A known timestamp: 2024-01-01 00:00:00 UTC = 1704067200
    let filetime2 = unix_to_filetime(1_704_067_200);
    // This should be > Unix epoch conversion
    assert!(filetime2 > filetime);
}

#[test]
fn test_file_descriptor_encode_normal_file() {
    let fd = FileDescriptorW::from_local_file(
        "test.txt".to_string(),
        1234,
        1_704_067_200, // 2024-01-01 00:00:00 UTC
        false,
    );

    let encoded = fd.encode();
    assert_eq!(encoded.len(), FILEDESCRIPTORW_SIZE);

    // Verify flags (FD_ATTRIBUTES | FD_FILESIZE | FD_WRITETIME = 0x64)
    let flags = u32::from_le_bytes([encoded[0], encoded[1], encoded[2], encoded[3]]);
    assert_eq!(
        flags,
        fd_flags::FD_ATTRIBUTES | fd_flags::FD_FILESIZE | fd_flags::FD_WRITETIME
    );

    // Verify attributes (FILE_ATTRIBUTE_NORMAL = 0x80)
    let attrs = u32::from_le_bytes([encoded[36], encoded[37], encoded[38], encoded[39]]);
    assert_eq!(attrs, file_attributes::FILE_ATTRIBUTE_NORMAL);

    // Verify file size (low DWORD at offset 68)
    let size_low = u32::from_le_bytes([encoded[68], encoded[69], encoded[70], encoded[71]]);
    assert_eq!(size_low, 1234);
}

#[test]
fn test_file_descriptor_encode_directory() {
    let fd = FileDescriptorW::from_local_file("my_folder".to_string(), 0, 1_704_067_200, true);

    let encoded = fd.encode();
    assert_eq!(encoded.len(), FILEDESCRIPTORW_SIZE);

    // Verify attributes (FILE_ATTRIBUTE_DIRECTORY = 0x10)
    let attrs = u32::from_le_bytes([encoded[36], encoded[37], encoded[38], encoded[39]]);
    assert_eq!(attrs, file_attributes::FILE_ATTRIBUTE_DIRECTORY);
}

#[test]
fn test_file_descriptor_encode_decode_roundtrip() {
    let original = FileDescriptorW::from_local_file(
        "document.pdf".to_string(),
        1_048_576, // 1MB
        1_704_067_200,
        false,
    );

    let encoded = original.encode();
    let decoded = FileDescriptorW::decode(&encoded).unwrap();

    assert_eq!(decoded.file_name, "document.pdf");
    assert_eq!(decoded.file_size, 1_048_576);
    assert!(decoded.has_file_size());
    assert!(decoded.has_attributes());
    assert!(!decoded.is_directory());
}

#[test]
fn test_file_descriptor_encode_unicode_filename() {
    let fd = FileDescriptorW::from_local_file(
        "日本語ファイル.txt".to_string(),
        100,
        1_704_067_200,
        false,
    );

    let encoded = fd.encode();
    let decoded = FileDescriptorW::decode(&encoded).unwrap();

    assert_eq!(decoded.file_name, "日本語ファイル.txt");
}

#[test]
fn test_file_descriptor_encode_large_file() {
    // Test file larger than 4GB (requires both high and low DWORDs)
    let fd = FileDescriptorW::from_local_file(
        "large_file.iso".to_string(),
        5_000_000_000, // ~4.7GB
        1_704_067_200,
        false,
    );

    let encoded = fd.encode();
    let decoded = FileDescriptorW::decode(&encoded).unwrap();

    assert_eq!(decoded.file_size, 5_000_000_000);
}

#[test]
fn test_cliprdr_file_list_encode_single() {
    let files = vec![FileDescriptorW::from_local_file(
        "file.txt".to_string(),
        1000,
        1_704_067_200,
        false,
    )];

    let file_list = CliprdrFileList::new(files);
    let encoded = file_list.encode();

    // Should be 4 bytes (count) + 592 bytes (1 file)
    assert_eq!(encoded.len(), 4 + FILEDESCRIPTORW_SIZE);

    // Verify count
    let count = u32::from_le_bytes([encoded[0], encoded[1], encoded[2], encoded[3]]);
    assert_eq!(count, 1);
}

#[test]
fn test_cliprdr_file_list_encode_multiple() {
    let files = vec![
        FileDescriptorW::from_local_file("file1.txt".to_string(), 100, 0, false),
        FileDescriptorW::from_local_file("file2.txt".to_string(), 200, 0, false),
        FileDescriptorW::from_local_file("folder".to_string(), 0, 0, true),
    ];

    let file_list = CliprdrFileList::new(files);
    let encoded = file_list.encode();

    // Should be 4 bytes (count) + 3 * 592 bytes
    assert_eq!(encoded.len(), 4 + 3 * FILEDESCRIPTORW_SIZE);

    // Verify count
    let count = u32::from_le_bytes([encoded[0], encoded[1], encoded[2], encoded[3]]);
    assert_eq!(count, 3);
}

#[test]
fn test_cliprdr_file_list_encode_decode_roundtrip() {
    let files = vec![
        FileDescriptorW::from_local_file("doc.pdf".to_string(), 50_000, 1_704_067_200, false),
        FileDescriptorW::from_local_file("photos".to_string(), 0, 1_704_067_200, true),
    ];

    let original = CliprdrFileList::new(files);
    let encoded = original.encode();
    let decoded = CliprdrFileList::decode(&encoded).unwrap();

    assert_eq!(decoded.count(), 2);
    let names: Vec<&str> = decoded.file_names();
    assert_eq!(names, vec!["doc.pdf", "photos"]);
    assert!(!decoded.files[0].is_directory());
    assert!(decoded.files[1].is_directory());
}

#[test]
fn test_file_attributes_constants() {
    assert_eq!(file_attributes::FILE_ATTRIBUTE_READONLY, 0x0001);
    assert_eq!(file_attributes::FILE_ATTRIBUTE_HIDDEN, 0x0002);
    assert_eq!(file_attributes::FILE_ATTRIBUTE_SYSTEM, 0x0004);
    assert_eq!(file_attributes::FILE_ATTRIBUTE_DIRECTORY, 0x0010);
    assert_eq!(file_attributes::FILE_ATTRIBUTE_ARCHIVE, 0x0020);
    assert_eq!(file_attributes::FILE_ATTRIBUTE_NORMAL, 0x0080);
}

#[test]
fn test_format_list_file_formats() {
    let format_list = FormatListPdu::file_formats(0xC100, 0xC101);

    assert_eq!(format_list.formats.len(), 2);
    assert_eq!(format_list.formats[0].id, 0xC100);
    assert_eq!(format_list.formats[0].name, "FileGroupDescriptorW");
    assert_eq!(format_list.formats[1].id, 0xC101);
    assert_eq!(format_list.formats[1].name, "FileContents");

    // Test encoding/decoding roundtrip
    let encoded = format_list.encode_payload_long();
    let decoded = FormatListPdu::decode_long(&encoded).unwrap();
    assert_eq!(decoded.formats.len(), 2);
    assert_eq!(decoded.formats[0].name, "FileGroupDescriptorW");
}
