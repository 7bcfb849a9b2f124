//! The clipboard channel.
use yard::cliprdr::pdu::ClipboardFormat;
use yard::cliprdr::{
    create_cliprdr_client, ClipboardEvent, CliprdrState, CliprdrSvcMessage, YardCliprdrHandler,
    CLIPRDR_CHANNEL_NAME,
};

#[test]
fn mod_test_handler_creation() {
    let handler = YardCliprdrHandler::new();
    assert_eq!(handler.state, CliprdrState::Initial);
    assert!(handler.is_enabled());
    assert!(handler.channel_id.is_none());
}

#[test]
fn test_handler_disabled() {
    let handler = YardCliprdrHandler::disabled();
    assert!(!handler.is_enabled());
    assert_eq!(handler.state, CliprdrState::Closed);
}

#[test]
fn mod_test_handler_channel_name() {
    let handler = YardCliprdrHandler::new();
    assert_eq!(handler.channel_name(), CLIPRDR_CHANNEL_NAME);
}

#[test]
fn mod_test_handler_start() {
    let mut handler = YardCliprdrHandler::new();
    let result = handler.start();
    assert!(result.is_empty());
    assert_eq!(handler.state, CliprdrState::Initial);
}

#[test]
fn test_process_empty_payload() {
    let mut handler = YardCliprdrHandler::new();
    handler.start();

    let result = handler.process(&[]);
    assert!(result.is_ok());
    assert!(result.unwrap().is_empty());
}

#[test]
fn test_process_disabled() {
    let mut handler = YardCliprdrHandler::disabled();

    // Even with valid data, disabled handler returns empty
    let monitor_ready = [
        0x01, 0x00, // msgType = MonitorReady
        0x00, 0x00, // msgFlags
        0x00, 0x00, 0x00, 0x00, // dataLen = 0
    ];
    let result = handler.process(&monitor_ready);
    assert!(result.is_ok());
    assert!(result.unwrap().is_empty());
}

#[test]
fn test_process_monitor_ready() {
    let mut handler = YardCliprdrHandler::new();
    handler.start();

    // Monitor Ready PDU
    let monitor_ready = [
        0x01, 0x00, // msgType = MonitorReady
        0x00, 0x00, // msgFlags
        0x00, 0x00, 0x00, 0x00, // dataLen = 0
    ];

    let result = handler.process(&monitor_ready);
    assert!(result.is_ok());

    // Should respond with Clip Capabilities and Format List
    let messages = result.unwrap();
    assert_eq!(messages.len(), 2);

    // State should be Ready
    assert_eq!(handler.state, CliprdrState::Ready);
}

#[test]
fn test_process_format_list() {
    let mut handler = YardCliprdrHandler::new();
    handler.start();
    handler.state = CliprdrState::Ready;

    // Format List PDU with CF_UNICODETEXT
    let format_list = [
        0x02, 0x00, // msgType = FormatList
        0x00, 0x00, // msgFlags
        0x06, 0x00, 0x00, 0x00, // dataLen = 6
        // Format entry: ID=13 (CF_UNICODETEXT), empty name (null-terminated)
        0x0D, 0x00, 0x00, 0x00, // formatId = 13
        0x00, 0x00, // null terminator (UTF-16)
    ];

    let result = handler.process(&format_list);
    assert!(result.is_ok());

    // Should respond with Format List Response
    let messages = result.unwrap();
    assert_eq!(messages.len(), 1);

    // Should have stored the format
    assert_eq!(handler.server_formats.len(), 1);
    assert_eq!(handler.server_formats[0].id, 13);
}

#[test]
fn test_create_cliprdr_client_with_channel() {
    let handler = create_cliprdr_client(true);
    assert!(handler.is_enabled());
}

#[test]
fn test_create_cliprdr_client_disabled() {
    let handler = create_cliprdr_client(false);
    assert!(!handler.is_enabled());
}

#[test]
fn test_cliprdr_svc_message() {
    let data = vec![0x01, 0x02, 0x03];
    let msg = CliprdrSvcMessage::new(data.clone());

    assert_eq!(msg.size(), 3);
    assert_eq!(msg.name(), "CliprdrSvcMessage");
}

#[test]
fn test_server_formats_accessor() {
    let mut handler = YardCliprdrHandler::new();
    assert!(handler.server_formats().is_empty());

    handler.server_formats = vec![ClipboardFormat::new(13, "")];
    assert_eq!(handler.server_formats().len(), 1);
}

#[test]
fn test_utf8_to_utf16le_conversion() {
    // Test UTF-8 to UTF-16LE conversion for clipboard
    // "Hello" should convert to UTF-16LE with null terminator
    let result = YardCliprdrHandler::utf8_to_utf16le_with_null("Hello");

    // Expected: H(0x48 0x00) e(0x65 0x00) l(0x6C 0x00) l(0x6C 0x00) o(0x6F 0x00) null(0x00 0x00)
    assert_eq!(result.len(), 12); // 5 chars * 2 bytes + 2 bytes null
    assert_eq!(result[0..2], [0x48, 0x00]); // H
    assert_eq!(result[10..12], [0x00, 0x00]); // null terminator
}

#[test]
fn test_utf8_to_utf16le_unicode() {
    // Test Unicode characters including emoji
    let result = YardCliprdrHandler::utf8_to_utf16le_with_null("日本");

    // 日 = U+65E5 → 0xE5 0x65 in UTF-16LE
    // 本 = U+672C → 0x2C 0x67 in UTF-16LE
    assert_eq!(result.len(), 6); // 2 chars * 2 bytes + 2 bytes null
    assert_eq!(result[0..2], [0xE5, 0x65]); // 日
    assert_eq!(result[2..4], [0x2C, 0x67]); // 本
}

#[test]
fn test_utf8_to_utf16le_emoji() {
    // Test emoji (surrogate pair)
    let result = YardCliprdrHandler::utf8_to_utf16le_with_null("👋");

    // 👋 = U+1F44B → D83D DC4B in UTF-16 surrogate pair
    assert_eq!(result.len(), 6); // 2 code units * 2 bytes + 2 bytes null
    assert_eq!(result[0..2], [0x3D, 0xD8]); // High surrogate
    assert_eq!(result[2..4], [0x4B, 0xDC]); // Low surrogate
}

#[test]
fn test_set_local_clipboard_text() {
    // Test setting local clipboard text
    let mut handler = YardCliprdrHandler::new();
    handler.start();
    handler.state = CliprdrState::Ready;

    // Set local clipboard text
    let result = handler.set_local_clipboard_text("Test clipboard".to_string());

    // Should return SvcMessage vector with Format List PDU
    assert!(result.is_some());
    let messages = result.unwrap();
    assert_eq!(messages.len(), 1);

    // Verify local clipboard text is stored
    assert_eq!(handler.local_clipboard_text(), Some("Test clipboard"));
    // Files should be cleared when text is set
    assert!(handler.local_clipboard_files().is_none());
}

#[test]
fn test_set_local_clipboard_not_ready() {
    // Setting clipboard when not ready should fail
    let mut handler = YardCliprdrHandler::new();
    // Don't call start() or set state to Ready

    let result = handler.set_local_clipboard_text("Test".to_string());
    assert!(result.is_none());
}

#[test]
fn test_remote_format_list_clears_local_clipboard() {
    // Remote Format List should clear local clipboard state
    let mut handler = YardCliprdrHandler::new();
    handler.start();
    handler.state = CliprdrState::Ready;

    // Set local clipboard text first
    handler.set_local_clipboard_text("Local content".to_string());
    assert!(handler.local_clipboard_text().is_some());

    // Simulate receiving Format List from server (remote clipboard changed)
    let format_list = [
        0x02, 0x00, // msgType = FormatList
        0x00, 0x00, // msgFlags
        0x06, 0x00, 0x00, 0x00, // dataLen = 6
        0x0D, 0x00, 0x00, 0x00, // formatId = 13 (CF_UNICODETEXT)
        0x00, 0x00, // null terminator
    ];
    let _ = handler.process(&format_list);

    // Local clipboard should be cleared (remote takes precedence)
    assert!(handler.local_clipboard_text().is_none());
}

#[test]
fn test_rapid_clipboard_changes_preserve_latest() {
    // Rapid clipboard changes should preserve the latest value
    let mut handler = YardCliprdrHandler::new();
    handler.start();
    handler.state = CliprdrState::Ready;

    // Simulate rapid clipboard changes (Ctrl+C spam)
    handler.set_local_clipboard_text("First".to_string());
    handler.set_local_clipboard_text("Second".to_string());
    handler.set_local_clipboard_text("Third".to_string());
    handler.set_local_clipboard_text("Final".to_string());

    // The latest value should be preserved
    assert_eq!(handler.local_clipboard_text(), Some("Final"));
}

#[test]
fn test_bidirectional_text_sync_local_then_remote() {
    // Test local change followed by remote change
    let mut handler = YardCliprdrHandler::with_event_channel();
    handler.start();
    handler.state = CliprdrState::Ready;

    // 1. Local clipboard change
    let result = handler.set_local_clipboard_text("Local text".to_string());
    assert!(result.is_some()); // Format List PDU generated
    assert_eq!(handler.local_clipboard_text(), Some("Local text"));

    // 2. Remote clipboard change (server sends Format List)
    let format_list = [
        0x02, 0x00, // msgType = FormatList
        0x00, 0x00, // msgFlags
        0x06, 0x00, 0x00, 0x00, // dataLen = 6
        0x0D, 0x00, 0x00, 0x00, // formatId = 13 (CF_UNICODETEXT)
        0x00, 0x00, // null terminator
    ];
    let _ = handler.process(&format_list);

    // Local clipboard should be cleared (remote wins)
    assert!(handler.local_clipboard_text().is_none());

    // Event should be received for formats available
    let mut events = handler.take_events();
    assert_eq!(events.len(), 1);
    if let ClipboardEvent::FormatsAvailable { has_text, .. } = events.remove(0) {
        assert!(has_text);
    } else {
        panic!("Expected FormatsAvailable event");
    }
}

#[test]
fn test_bidirectional_text_sync_remote_then_local() {
    // Test remote change followed by local change
    let mut handler = YardCliprdrHandler::with_event_channel();
    handler.start();
    handler.state = CliprdrState::Ready;

    // 1. Remote clipboard change
    let format_list = [
        0x02, 0x00, // msgType = FormatList
        0x00, 0x00, // msgFlags
        0x06, 0x00, 0x00, 0x00, // dataLen = 6
        0x0D, 0x00, 0x00, 0x00, // formatId = 13 (CF_UNICODETEXT)
        0x00, 0x00, // null terminator
    ];
    let _ = handler.process(&format_list);

    // Server formats should be stored
    assert!(!handler.server_formats().is_empty());

    // 2. Local clipboard change
    let result = handler.set_local_clipboard_text("New local text".to_string());
    assert!(result.is_some()); // Format List PDU generated
    assert_eq!(handler.local_clipboard_text(), Some("New local text"));
}

#[test]
fn test_text_and_files_mutually_exclusive() {
    // Text and files should be mutually exclusive
    let mut handler = YardCliprdrHandler::new();
    handler.start();
    handler.state = CliprdrState::Ready;

    // Set text
    handler.set_local_clipboard_text("Some text".to_string());
    assert!(handler.local_clipboard_text().is_some());
    assert!(handler.local_clipboard_files().is_none());

    // Setting text again clears files (already None, but verifies logic)
    handler.set_local_clipboard_text("More text".to_string());
    assert!(handler.local_clipboard_text().is_some());
    assert!(handler.local_clipboard_files().is_none());
}

#[test]
fn test_clear_local_clipboard() {
    // Test clearing the local clipboard
    let mut handler = YardCliprdrHandler::new();
    handler.start();
    handler.state = CliprdrState::Ready;

    // Set some content
    handler.set_local_clipboard_text("Content".to_string());
    assert!(handler.local_clipboard_text().is_some());

    // Clear clipboard
    let result = handler.clear_local_clipboard();
    assert!(result.is_some()); // Empty Format List PDU generated
    assert!(handler.local_clipboard_text().is_none());
    assert!(handler.local_clipboard_files().is_none());
}

#[test]
fn test_format_data_request_response_cycle() {
    // Test complete format data request/response cycle
    let mut handler = YardCliprdrHandler::new();
    handler.start();
    handler.state = CliprdrState::Ready;

    // Set local clipboard text
    handler.set_local_clipboard_text("Test data for server".to_string());

    // Simulate server requesting Unicode text
    let request = [
        0x04, 0x00, // msgType = FormatDataRequest
        0x00, 0x00, // msgFlags
        0x04, 0x00, 0x00, 0x00, // dataLen = 4
        0x0D, 0x00, 0x00, 0x00, // requestedFormatId = 13 (CF_UNICODETEXT)
    ];
    let result = handler.process(&request);
    assert!(result.is_ok());

    let messages = result.unwrap();
    assert_eq!(messages.len(), 1); // Format Data Response

    // Verify the response contains UTF-16LE encoded text
    // The response is wrapped in SvcMessage, so we can't easily inspect the bytes
    // but we know the handler processed it successfully
}
