//! What holds of several functions together, on concrete values.
use yard::audin::pdu::{AudinPdu, DataPdu, FormatChange, VersionPdu};
use yard::audio::ring_buffer::AudioRingBuffer;
use yard::client::prompt::truncate_string;
use yard::client::settings::{connection_config, effective_settings, ConnectOptions};
use yard::cliprdr::file_transfer::FileTransferManager;
use yard::cliprdr::pdu::{
    CliprdrFileList, CliprdrPdu, FileContentsRequestPdu, FormatDataRequestPdu,
};
use yard::cliprdr::{LocalFileInfo, YardCliprdrHandler};
use yard::config::{Config, ConnectionProfile};
use yard::connection::certificate::format_fingerprint;
use yard::messages::{ConnectionConfig, MouseButton, ToNetwork};
use yard::monitors::{calculate_combined_desktop_size, layout_is_countable, RdpMonitorInfo};

fn message(kind: u16, flags: u16, payload: &[u8]) -> Vec<u8> {
    let mut v = kind.to_le_bytes().to_vec();
    v.extend_from_slice(&flags.to_le_bytes());
    v.extend_from_slice(&(payload.len() as u32).to_le_bytes());
    v.extend_from_slice(payload);
    v
}

fn ready() -> YardCliprdrHandler {
    let mut handler = YardCliprdrHandler::with_event_channel();
    handler.start();
    handler.process(&message(1, 0, &[])).unwrap();
    handler
}

fn local_file(name: &str, size: u64) -> Option<LocalFileInfo> {
    let path = format!("/tmp/{name}").into();
    LocalFileInfo::from_metadata(path, Some(name.to_string()), size, Some(1), false)
}

#[test]
fn nothing_is_asked_for_before_the_channel_is_ready() {
    let mut handler = YardCliprdrHandler::new();
    assert!(handler.set_local_clipboard_text("t".to_string()).is_none());
    assert!(handler.request_text_data().is_none());
    assert!(handler.request_file_size(0).is_none());
}

#[test]
fn offered_text_is_what_the_server_reads() {
    let mut handler = ready();
    assert!(handler.set_local_clipboard_text("grüße 🎉".to_string()).is_some());
    let out = handler.process(&message(4, 0, &13u32.to_le_bytes())).unwrap();
    assert_eq!(out.len(), 1);
    match CliprdrPdu::decode(&out[0].data, true) {
        Ok(CliprdrPdu::FormatDataResponse(r)) => {
            assert!(r.success);
            assert_eq!(r.as_utf8_from_unicode(), Some("grüße 🎉".to_string()));
        }
        _ => panic!("Expected the data"),
    }
}

#[test]
fn offered_files_are_what_the_server_lists() {
    let mut handler = ready();
    handler.set_local_clipboard_text("t".to_string());
    handler.set_local_clipboard_files(vec![local_file("a.txt", 5), local_file("ü", 7)]);
    assert!(handler.local_clipboard_text().is_none());
    let (descriptor_id, _) = handler.local_file_format_ids();
    let out = handler.process(&message(4, 0, &descriptor_id.to_le_bytes())).unwrap();
    match CliprdrPdu::decode(&out[0].data, true) {
        Ok(CliprdrPdu::FormatDataResponse(r)) => {
            let list = CliprdrFileList::decode(&r.data).unwrap();
            assert_eq!(list.files.len(), 2);
            assert_eq!(list.files[0].file_name, "a.txt");
            assert_eq!(list.files[1].file_name, "ü");
            assert_eq!(list.files[1].file_size, 7);
        }
        _ => panic!("Expected the list"),
    }
}

#[test]
fn most_recent_change_wins() {
    let mut handler = ready();
    handler.set_local_clipboard_text("local".to_string());
    let mut offer = 13u32.to_le_bytes().to_vec();
    offer.extend_from_slice(&[0, 0]);
    handler.process(&message(2, 0, &offer)).unwrap();
    assert!(handler.local_clipboard_text().is_none());
    assert_eq!(handler.server_formats().len(), 1);
    handler.set_local_clipboard_text("newer".to_string());
    assert_eq!(handler.local_clipboard_text(), Some("newer"));
}

#[test]
fn disabled_clipboard_stays_silent() {
    let mut handler = YardCliprdrHandler::disabled();
    assert!(!handler.is_enabled());
    assert!(handler.process(&message(1, 0, &[])).unwrap().is_empty());
    assert!(handler.set_local_clipboard_text("t".to_string()).is_none());
}

#[test]
fn messages_are_read_back() {
    let data = FormatDataRequestPdu::new(0xABCD).encode();
    assert!(matches!(CliprdrPdu::decode(&data, false),
        Ok(CliprdrPdu::FormatDataRequest(p)) if p.requested_format_id == 0xABCD));
    let data = FileContentsRequestPdu::range(3, 4, 0x1_0000_0002, 9).encode();
    match CliprdrPdu::decode(&data, true) {
        Ok(CliprdrPdu::FileContentsRequest(p)) => {
            assert_eq!((p.stream_id, p.lindex, p.offset(), p.cb_requested), (3, 4, 0x1_0000_0002, 9));
        }
        _ => panic!("Expected the request"),
    }
    let data = VersionPdu::new(7).encode().unwrap();
    assert!(matches!(AudinPdu::decode(&data), Ok(AudinPdu::Version(v)) if v.version == 7));
    let data = FormatChange::new(9).encode().unwrap();
    assert!(matches!(AudinPdu::decode(&data), Ok(AudinPdu::FormatChange { new_format: 9 })));
    let data = DataPdu::new(vec![1, 2]).encode().unwrap();
    assert!(matches!(AudinPdu::decode(&data), Ok(AudinPdu::Data(d)) if d == vec![1, 2]));
}

#[test]
fn download_advances_until_it_is_complete() {
    let mut manager = FileTransferManager::new("/s".to_string());
    manager.set_chunk_size(4);
    manager.add_files(&[("f".to_string(), Some(10), false), ("g".to_string(), None, false)]);
    let (stream, file) = manager.start_next_transfer().unwrap();
    assert_eq!(file, 0);
    let (s1, _, o1, l1) = manager.handle_size_response(stream, 10, Ok(())).unwrap().unwrap();
    assert_eq!((o1, l1), (0, 4));
    let (s2, _, o2, l2) =
        manager.handle_content_response(s1, &[0; 4], Ok(()), Ok(())).unwrap().unwrap();
    assert_eq!((o2, l2), (4, 4));
    let (s3, _, o3, l3) =
        manager.handle_content_response(s2, &[0; 4], Ok(()), Ok(())).unwrap().unwrap();
    assert_eq!((o3, l3), (8, 2));
    assert!(s1 != s2 && s2 != s3);
    assert!(manager.handle_content_response(s3, &[0; 2], Ok(()), Ok(())).unwrap().is_none());
    assert_eq!(manager.completed_files(), vec!["/s/f".to_string()]);
    assert_eq!(manager.pending_count(), 1);
}

#[test]
fn options_come_before_the_profile() {
    let mut config = Config::default();
    config.defaults.username = Some("default".to_string());
    let profile = ConnectionProfile {
        username: Some("profile".to_string()),
        ..ConnectionProfile::new("host.example.com")
    };
    config.profiles.set("work", profile);
    let by_profile = effective_settings(&config, &ConnectOptions::new("work"));
    assert_eq!(by_profile.username, Some("profile".to_string()));
    let options = ConnectOptions {
        username: Some("option".to_string()),
        ..ConnectOptions::new("work")
    };
    assert_eq!(effective_settings(&config, &options).username, Some("option".to_string()));
    let plain = effective_settings(&config, &ConnectOptions::new("other"));
    assert_eq!(plain.username, Some("default".to_string()));
    assert_eq!(plain.host, "other");
    assert_eq!(connection_config(&plain).address(), "other:3389");
}

#[test]
fn password_is_not_written() {
    let config = ConnectionConfig::new("h", 1).with_username("u");
    let with = config.clone().with_password("s3cret\"");
    assert!(!with.debug_text().contains("s3cret"));
    let other = config.with_password("different");
    assert_eq!(with.debug_text(), other.debug_text());
    assert!(!ToNetwork::Connect(with).debug_text().contains("s3cret"));
    let text = ToNetwork::MouseButton { button: MouseButton::Left, pressed: true, x: 1, y: 2 };
    assert!(text.debug_text().contains("Left"));
    let text = ToNetwork::UnicodeInput { character: '\n', pressed: true }.debug_text();
    assert!(text.contains("'\\n'"));
}

#[test]
fn desktop_spans_all_monitors() {
    let monitors = [
        RdpMonitorInfo::new(0, 0, 1920, 1080, true),
        RdpMonitorInfo::new(-1280, -200, 1280, 1024, false),
    ];
    assert!(layout_is_countable(&monitors));
    let size = calculate_combined_desktop_size(&monitors);
    assert_eq!((size.width, size.height), (3200, 1280));
    let far = [RdpMonitorInfo::new(i32::MAX, 0, u32::MAX, 1, true)];
    assert!(!layout_is_countable(&far));
}

#[test]
fn different_digests_have_different_fingerprints() {
    assert_eq!(format_fingerprint(&[0x0A, 0xFF]), "SHA256:0A:FF");
    assert_ne!(format_fingerprint(&[0x0A, 0xFF]), format_fingerprint(&[0xAF, 0x0F]));
}

#[test]
fn truncated_text_fits() {
    for n in 0..12 {
        assert!(truncate_string("日本語 hello", n).chars().count() <= n);
    }
}

#[test]
fn statistics_tell_the_history_of_a_ring() {
    let mut ring = AudioRingBuffer::new(1024);
    let mut out = [0u8; 300];
    let mut written = ring.push(&[1; 700]) + ring.push(&[2; 200]);
    let mut read = ring.pop(&mut out);
    let stats = ring.stats();
    assert_eq!((stats.bytes_written, stats.bytes_read), (written as u64, read as u64));
    assert_eq!(stats.overflows, 0);
    assert_eq!(stats.bytes_written - stats.bytes_read, stats.current_fill as u64);

    written += ring.push(&[3; 900]);
    read += ring.pop(&mut out);
    let stats = ring.stats();
    assert_eq!((written, read), (1800, 600));
    assert_eq!((stats.bytes_written, stats.bytes_read), (1800, 600));
    assert_eq!((stats.overflows, stats.current_fill, stats.capacity), (1, 724, 1024));
    assert!(stats.bytes_written - stats.bytes_read > stats.current_fill as u64);
}
