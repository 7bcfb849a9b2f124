//! Text and files from the remote clipboard.
use yard::client::downloads::{begin_downloads, content_arrived, size_arrived};
use yard::cliprdr::pdu::{
    ClipboardFormat, CliprdrFileList, CliprdrPdu, FileContentsFlags, FileContentsResponsePdu,
    FileDescriptorW, FormatDataResponsePdu, FormatListPdu,
};
use yard::cliprdr::{ClipboardEvent, YardCliprdrHandler};
use yard::messages::ToNetwork;

/// The number under which the server offers file lists.
const FILE_LIST_ID: u32 = 0xC0AA;

/// A handler that knows one file of the server, without events.
fn with_remote_file() -> YardCliprdrHandler {
    let mut handler = YardCliprdrHandler::with_event_channel();
    handler.start();
    handler.handle_monitor_ready();
    let formats = vec![ClipboardFormat::new(FILE_LIST_ID, "FileGroupDescriptorW")];
    handler.handle_format_list(&FormatListPdu::new(formats));
    let file = FileDescriptorW::from_local_file("a.txt".to_string(), 8, 0, false);
    let list = CliprdrFileList::new(vec![file]);
    handler.handle_format_data_response(&FormatDataResponsePdu::ok(list.encode()));
    assert_eq!(handler.remote_file_count(), 1);
    handler.take_events();
    handler
}

fn asked_for(data: &[u8]) -> (u32, u32, FileContentsFlags, u64, u32) {
    match CliprdrPdu::decode(data, true) {
        Ok(CliprdrPdu::FileContentsRequest(r)) => {
            (r.stream_id, r.lindex, r.flags, r.offset(), r.cb_requested)
        }
        _ => panic!("Expected a file request"),
    }
}

#[test]
fn ansi_text_is_read_as_it_was_asked_for() {
    let mut handler = YardCliprdrHandler::with_event_channel();
    handler.handle_format_list(&FormatListPdu::new(vec![ClipboardFormat::new(1, "")]));
    assert!(handler.has_pending_request());
    let response = FormatDataResponsePdu::ok(b"Hello\0".to_vec());
    assert!(handler.handle_format_data_response(&response).is_empty());
    let events = handler.take_events();
    assert_eq!(events.len(), 2);
    assert!(matches!(events[0], ClipboardEvent::FormatsAvailable { .. }));
    match &events[1] {
        ClipboardEvent::TextReceived { text } => assert_eq!(text, "Hello"),
        _ => panic!("Expected the text"),
    }
    assert_eq!(handler.take_clipboard_data(), Some("Hello".to_string()));
    assert!(!handler.has_pending_request());
}

#[test]
fn unicode_text_is_read_as_it_was_asked_for() {
    let mut handler = YardCliprdrHandler::with_event_channel();
    handler.handle_format_list(&FormatListPdu::new(vec![ClipboardFormat::new(13, "")]));
    let data = YardCliprdrHandler::utf8_to_utf16le_with_null("Hello");
    handler.handle_format_data_response(&FormatDataResponsePdu::ok(data));
    assert_eq!(handler.take_clipboard_data(), Some("Hello".to_string()));
}

#[test]
fn unasked_data_is_a_file_list_where_no_file_format_is_known() {
    let mut handler = YardCliprdrHandler::with_event_channel();
    let file = FileDescriptorW::from_local_file("a.txt".to_string(), 8, 0, false);
    let list = CliprdrFileList::new(vec![file]);
    handler.handle_format_data_response(&FormatDataResponsePdu::ok(list.encode()));
    let events = handler.take_events();
    assert_eq!(events.len(), 1);
    match &events[0] {
        ClipboardEvent::FilesReceived { files } => assert_eq!(files[0].name, "a.txt"),
        _ => panic!("Expected the files"),
    }
    assert_eq!(handler.remote_file_count(), 1);

    // With a file format that was not asked for, data is text.
    let mut handler = with_remote_file();
    let data = YardCliprdrHandler::utf8_to_utf16le_with_null("Hello");
    handler.handle_format_data_response(&FormatDataResponsePdu::ok(data));
    assert_eq!(handler.take_clipboard_data(), Some("Hello".to_string()));
}

#[test]
fn eight_bytes_are_a_part_where_a_part_was_asked_for() {
    let mut handler = with_remote_file();
    let (id, data) = handler.request_file_content(0, 0, 8).unwrap();
    assert_eq!(asked_for(&data), (id, 0, FileContentsFlags::Range, 0, 8));
    let response = FileContentsResponsePdu::ok(id, b"12345678".to_vec());
    assert!(handler.handle_file_contents_response(&response).is_empty());
    let events = handler.take_events();
    assert_eq!(events.len(), 1);
    match &events[0] {
        ClipboardEvent::FileContentReceived { stream_id, data } => {
            assert_eq!(*stream_id, id);
            assert_eq!(data, b"12345678");
        }
        _ => panic!("Expected the part"),
    }
}

#[test]
fn eight_bytes_are_a_size_where_a_size_was_asked_for() {
    let mut handler = with_remote_file();
    let (id, data) = handler.request_file_size(0).unwrap();
    assert_eq!(asked_for(&data), (id, 0, FileContentsFlags::Size, 0, 8));
    let response = FileContentsResponsePdu::ok(id, 258u64.to_le_bytes().to_vec());
    handler.handle_file_contents_response(&response);
    let events = handler.take_events();
    assert_eq!(events.len(), 1);
    assert!(matches!(
        events[0],
        ClipboardEvent::FileSizeReceived { stream_id, size: 258 } if stream_id == id
    ));
}

#[test]
fn answers_carry_the_identifier_of_their_request() {
    let mut handler = with_remote_file();
    let (size_id, data) = handler.request_file_size(0).unwrap();
    assert_eq!(asked_for(&data), (size_id, 0, FileContentsFlags::Size, 0, 8));
    let (part_id, data) = handler.request_file_content(0, 0x1_0000_0002, 8).unwrap();
    assert_eq!(asked_for(&data), (part_id, 0, FileContentsFlags::Range, 0x1_0000_0002, 8));
    assert!(handler.request_file_size(1).is_none());
    let (last_id, _) = handler.request_file_size(0).unwrap();
    assert_eq!((size_id, part_id, last_id), (1, 2, 3));

    // The answers come in another order than the requests.
    handler.handle_file_contents_response(&FileContentsResponsePdu::ok(2, vec![0; 8]));
    handler.handle_file_contents_response(&FileContentsResponsePdu::ok(1, vec![0; 8]));
    handler.handle_file_contents_response(&FileContentsResponsePdu::fail(3));
    let events = handler.take_events();
    assert_eq!(events.len(), 3);
    assert!(matches!(events[0], ClipboardEvent::FileContentReceived { stream_id: 2, .. }));
    assert!(matches!(events[1], ClipboardEvent::FileSizeReceived { stream_id: 1, size: 0 }));
    assert!(matches!(events[2], ClipboardEvent::FileTransferFailed { stream_id: 3 }));
}

#[test]
fn download_with_the_identifiers_of_the_handler() {
    let mut handler = with_remote_file();
    let file = handler.remote_file_info(0).unwrap();
    let (mut manager, _) = begin_downloads("/s".to_string(), &[file]);
    let (id, _) = handler.request_file_size(0).unwrap();
    let step = size_arrived(&mut manager, id, 8, Ok(()));
    assert!(matches!(
        step.request,
        Some(ToNetwork::RequestFileContent { file_index: 0, offset: 0, length: 8 })
    ));
    let (id, _) = handler.request_file_content(0, 0, 8).unwrap();
    let step = content_arrived(&mut manager, id, b"12345678", Ok(()), Ok(()));
    assert_eq!(step.clipboard, Some(vec!["/s/a.txt".to_string()]));
}

#[test]
fn events_and_messages_can_be_cloned() {
    let event = ClipboardEvent::TextReceived { text: "t".to_string() };
    assert!(matches!(event.clone(), ClipboardEvent::TextReceived { text } if text == "t"));
    let list = FormatListPdu::new(vec![ClipboardFormat::new(7, "x")]);
    assert_eq!(list.clone().formats, list.formats);
}

#[test]
fn copied_files_are_written_out_with_their_paths() {
    let files = |paths: &[&str]| ToNetwork::LocalClipboardFiles {
        files: paths.iter().map(|p| p.into()).collect(),
    };
    assert_eq!(files(&[]).debug_text(), "LocalClipboardFiles { files: [] }");
    assert_eq!(
        files(&["/tmp/a", "b \"c\""]).debug_text(),
        "LocalClipboardFiles { files: [\"/tmp/a\", \"b \\\"c\\\"\"] }"
    );
}
