//! Making a connection, and the session after it.
use ironrdp::displaycontrol::pdu::{MonitorLayoutEntry, MonitorOrientation};
use ironrdp::pdu::input::fast_path::{FastPathInputEvent, KeyboardFlags};
use ironrdp::pdu::input::mouse::PointerFlags;
use ironrdp::pdu::input::MousePdu;
use x509_cert::name::RdnSequence;
use yard::cliprdr::{ClipboardEvent, FileInfo};
use yard::connection::certificate::{
    extract_certificate_info, extract_rdn_value, first_attribute, parse_server_name, NameAttribute,
};
use yard::connection::display::{
    build_monitor_layout, layout_channel, layout_report, LayoutError, LayoutOutcome,
};
use yard::connection::input::{scancode_key, InputState};
use yard::connection::rdp_config::build_rdp_config;
use yard::connection::session::{
    clipboard_news, frame_report, output_action, packed_rows, session_step, ClipboardCommand,
    OutputAction, SessionAction, StageOutput, UpdateRect,
};
use yard::connection::{
    certificate_wait_step, dial_error, plan_channels, ConnectAttempt, ConnectEvent, ConnectPhase,
    DialFailure, NetworkAction, NetworkLoop, WaitEvent,
};
use yard::messages::{ConnectionConfig, ConnectionError, FromNetwork, MouseButton, ToNetwork};
use yard::monitors::{DesktopSize, RdpMonitorInfo};

/// A certificate of `server.test` for `Yard`, issued by `Test CA`.
const CERTIFICATE: [u8; 230] = [
    0x30, 0x81, 0xe3, 0x30, 0x81, 0x96, 0xa0, 0x03, 0x02, 0x01, 0x02, 0x02, 0x01, 0x01, 0x30, 0x05,
    0x06, 0x03, 0x2b, 0x65, 0x70, 0x30, 0x12, 0x31, 0x10, 0x30, 0x0e, 0x06, 0x03, 0x55, 0x04, 0x0a,
    0x13, 0x07, 0x54, 0x65, 0x73, 0x74, 0x20, 0x43, 0x41, 0x30, 0x1e, 0x17, 0x0d, 0x32, 0x34, 0x30,
    0x31, 0x30, 0x32, 0x30, 0x33, 0x30, 0x34, 0x30, 0x35, 0x5a, 0x17, 0x0d, 0x32, 0x35, 0x30, 0x36,
    0x30, 0x37, 0x30, 0x38, 0x30, 0x39, 0x31, 0x30, 0x5a, 0x30, 0x25, 0x31, 0x0d, 0x30, 0x0b, 0x06,
    0x03, 0x55, 0x04, 0x0a, 0x0c, 0x04, 0x59, 0x61, 0x72, 0x64, 0x31, 0x14, 0x30, 0x12, 0x06, 0x03,
    0x55, 0x04, 0x03, 0x13, 0x0b, 0x73, 0x65, 0x72, 0x76, 0x65, 0x72, 0x2e, 0x74, 0x65, 0x73, 0x74,
    0x30, 0x2a, 0x30, 0x05, 0x06, 0x03, 0x2b, 0x65, 0x70, 0x03, 0x21, 0x00, 0x00, 0x01, 0x02, 0x03,
    0x04, 0x05, 0x06, 0x07, 0x08, 0x09, 0x0a, 0x0b, 0x0c, 0x0d, 0x0e, 0x0f, 0x10, 0x11, 0x12, 0x13,
    0x14, 0x15, 0x16, 0x17, 0x18, 0x19, 0x1a, 0x1b, 0x1c, 0x1d, 0x1e, 0x1f, 0x30, 0x05, 0x06, 0x03,
    0x2b, 0x65, 0x70, 0x03, 0x41, 0x00, 0x00, 0x00, 0x00, 0x00, 0x00, 0x00, 0x00, 0x00, 0x00, 0x00,
    0x00, 0x00, 0x00, 0x00, 0x00, 0x00, 0x00, 0x00, 0x00, 0x00, 0x00, 0x00, 0x00, 0x00, 0x00, 0x00,
    0x00, 0x00, 0x00, 0x00, 0x00, 0x00, 0x00, 0x00, 0x00, 0x00, 0x00, 0x00, 0x00, 0x00, 0x00, 0x00,
    0x00, 0x00, 0x00, 0x00, 0x00, 0x00, 0x00, 0x00, 0x00, 0x00, 0x00, 0x00, 0x00, 0x00, 0x00, 0x00,
    0x00, 0x00, 0x00, 0x00, 0x00, 0x00,
];

/// The public key of the certificate, as it is encoded there.
const PUBLIC_KEY: [u8; 44] = [
    0x30, 0x2a, 0x30, 0x05, 0x06, 0x03, 0x2b, 0x65, 0x70, 0x03, 0x21, 0x00, 0x00, 0x01, 0x02, 0x03,
    0x04, 0x05, 0x06, 0x07, 0x08, 0x09, 0x0a, 0x0b, 0x0c, 0x0d, 0x0e, 0x0f, 0x10, 0x11, 0x12, 0x13,
    0x14, 0x15, 0x16, 0x17, 0x18, 0x19, 0x1a, 0x1b, 0x1c, 0x1d, 0x1e, 0x1f,
];

#[test]
fn certificate_is_read() {
    let chain = vec![CERTIFICATE.to_vec(), vec![1, 2, 3]];
    let (info, key) = extract_certificate_info(Some(chain)).unwrap();
    assert_eq!(
        info.fingerprint,
        "SHA256:91:AD:65:47:09:CE:9B:27:61:F9:D1:E8:88:4F:8E:D0:27:4D:2C:99:06:7D:62:97:26:E5:26:C4:D0:97:1C:5B"
    );
    assert_eq!(info.common_name, Some("server.test".to_string()));
    assert_eq!(info.organization, Some("Yard".to_string()));
    assert_eq!(info.issuer, "Test CA");
    assert_eq!(info.not_before, "2024-01-02T03:04:05Z");
    assert_eq!(info.not_after, "2025-06-07T08:09:10Z");
    assert_eq!(key, PUBLIC_KEY.to_vec());
    assert!(info.is_showable());
}

#[test]
fn certificates_that_cannot_be_read() {
    let tls = |r| match r {
        Err(ConnectionError::TlsError(s)) => s,
        _ => panic!("Expected a TLS error"),
    };
    assert_eq!(tls(extract_certificate_info(None)), "No peer certificates");
    assert_eq!(tls(extract_certificate_info(Some(vec![]))), "Empty certificate chain");
    let s: String = tls(extract_certificate_info(Some(vec![vec![1, 2, 3]])));
    assert!(s.starts_with("Failed to parse certificate: "));
}

#[test]
fn attribute_is_found_by_its_type() {
    let name: RdnSequence = "CN=server.test,O=Yard".parse().unwrap();
    assert_eq!(extract_rdn_value(&name, "2.5.4.3"), Some("server.test".to_string()));
    assert_eq!(extract_rdn_value(&name, "2.5.4.10"), Some("Yard".to_string()));
    assert_eq!(extract_rdn_value(&name, "2.5.4.6"), None);
    assert_eq!(extract_rdn_value(&name, "common name"), None);
    assert_eq!(extract_rdn_value(&name, "1.2.536870928"), None);
}

#[test]
fn attribute_types_are_compared_by_their_bytes() {
    let subject = [NameAttribute {
        oid: vec![0x55, 0x80, 0x04, 0x03],
        utf8: Some("server.test".to_string()),
        printable: None,
    }];
    assert_eq!(first_attribute(&subject, &[0x55, 0x04, 0x03]), None);
}

#[test]
fn first_attribute_with_a_text_counts() {
    let attribute = |oid: &[u8], utf8: Option<&str>, printable: Option<&str>| NameAttribute {
        oid: oid.to_vec(),
        utf8: utf8.map(|s| s.to_string()),
        printable: printable.map(|s| s.to_string()),
    };
    let all = [
        attribute(&[0x2A], None, None),
        attribute(&[0x2B], Some("other"), None),
        attribute(&[0x2A], None, Some("printable")),
        attribute(&[0x2A], Some("late"), None),
        attribute(&[0x2C], Some("utf8"), Some("printable")),
    ];
    assert_eq!(first_attribute(&all, &[0x2A]), Some("printable".to_string()));
    assert_eq!(first_attribute(&all, &[0x2C]), Some("utf8".to_string()));
    assert_eq!(first_attribute(&all, &[0x2D]), None);
}

#[test]
fn server_names() {
    assert!(parse_server_name("server.example.com").is_ok());
    assert!(parse_server_name("192.168.1.1").is_ok());
    match parse_server_name("not a name") {
        Err(ConnectionError::TlsError(s)) => assert_eq!(s, "Invalid server name: not a name"),
        _ => panic!("Expected a TLS error"),
    }
}

#[test]
fn codecs_begin_with_remotefx() {
    let config = build_rdp_config(&ConnectionConfig::new("h", 1)).unwrap();
    assert_eq!(config.codecs.0[0].id, 3);
}

fn key(flags: KeyboardFlags, code: u8) -> FastPathInputEvent {
    FastPathInputEvent::KeyboardEvent(flags, code)
}

fn mouse(flags: PointerFlags, units: i16, x: u16, y: u16) -> FastPathInputEvent {
    FastPathInputEvent::MouseEvent(MousePdu {
        flags,
        number_of_wheel_rotation_units: units,
        x_position: x,
        y_position: y,
    })
}

#[test]
fn scancodes() {
    assert_eq!(scancode_key(0x001E), (false, 0x1E));
    assert_eq!(scancode_key(0xE04B), (true, 0x4B));
    assert_eq!(scancode_key(0x604B), (false, 0x4B));
}

#[test]
fn keys_are_pressed_and_released() {
    let mut state = InputState::new();
    let press = ToNetwork::KeyboardInput { scancode: 0xE04B, pressed: true };
    assert_eq!(state.apply(&press), vec![key(KeyboardFlags::EXTENDED, 0x4B)]);
    // A key that is held is released before it is pressed again.
    assert_eq!(
        state.apply(&press),
        vec![
            key(KeyboardFlags::EXTENDED | KeyboardFlags::RELEASE, 0x4B),
            key(KeyboardFlags::EXTENDED, 0x4B),
        ]
    );
    let release = ToNetwork::KeyboardInput { scancode: 0xE04B, pressed: false };
    assert_eq!(
        state.apply(&release),
        vec![key(KeyboardFlags::EXTENDED | KeyboardFlags::RELEASE, 0x4B)]
    );
    assert_eq!(state.apply(&release), vec![]);
}

#[test]
fn characters_are_pressed_and_released() {
    let mut state = InputState::new();
    let press = ToNetwork::UnicodeInput { character: 'é', pressed: true };
    assert_eq!(
        state.apply(&press),
        vec![FastPathInputEvent::UnicodeKeyboardEvent(KeyboardFlags::empty(), 0xE9)]
    );
    let release = ToNetwork::UnicodeInput { character: 'é', pressed: false };
    assert_eq!(
        state.apply(&release),
        vec![FastPathInputEvent::UnicodeKeyboardEvent(KeyboardFlags::RELEASE, 0xE9)]
    );
}

#[test]
fn click_happens_at_the_pointer() {
    let mut state = InputState::new();
    let press = ToNetwork::MouseButton { button: MouseButton::Right, pressed: true, x: 5, y: 6 };
    assert_eq!(
        state.apply(&press),
        vec![
            mouse(PointerFlags::MOVE, 0, 5, 6),
            mouse(PointerFlags::DOWN | PointerFlags::RIGHT_BUTTON, 0, 5, 6),
        ]
    );
    assert_eq!(state.apply(&ToNetwork::MouseMove { x: 5, y: 6 }), vec![]);
    let wheel = ToNetwork::MouseWheel { horizontal: true, delta: -120, x: 7, y: 6 };
    assert_eq!(
        state.apply(&wheel),
        vec![
            mouse(PointerFlags::MOVE, 0, 7, 6),
            mouse(PointerFlags::HORIZONTAL_WHEEL, -120, 7, 6),
        ]
    );
}

#[test]
fn end_of_the_session_releases_everything() {
    let mut state = InputState::new();
    let press = ToNetwork::KeyboardInput { scancode: 0x1E, pressed: true };
    match session_step(&mut state, Some(press)) {
        SessionAction::SendInput(events) => {
            assert_eq!(events, vec![key(KeyboardFlags::empty(), 0x1E)]);
        }
        _ => panic!("Expected input"),
    }
    let press = ToNetwork::MouseButton { button: MouseButton::Left, pressed: true, x: 1, y: 2 };
    session_step(&mut state, Some(press));
    match session_step(&mut state, Some(ToNetwork::Disconnect)) {
        SessionAction::ReleaseAndEnd(events) => assert_eq!(
            events,
            vec![
                mouse(PointerFlags::LEFT_BUTTON, 0, 1, 2),
                key(KeyboardFlags::RELEASE, 0x1E),
            ]
        ),
        _ => panic!("Expected the end"),
    }
    assert_eq!(state.release_all(), vec![]);
}

#[test]
fn requests_in_a_session() {
    let mut state = InputState::new();
    assert!(matches!(session_step(&mut state, None), SessionAction::End));
    let connect = ToNetwork::Connect(ConnectionConfig::new("h", 1));
    assert!(matches!(session_step(&mut state, Some(connect)), SessionAction::Ignore));
    let decision = ToNetwork::CertificateDecision(true);
    assert!(matches!(session_step(&mut state, Some(decision)), SessionAction::Ignore));
    let layout = ToNetwork::UpdateMonitorLayout { monitors: vec![] };
    assert!(matches!(session_step(&mut state, Some(layout)), SessionAction::Ignore));
    assert!(matches!(
        session_step(&mut state, Some(ToNetwork::RequestClipboardText)),
        SessionAction::Clipboard(ClipboardCommand::RequestText)
    ));
    match session_step(&mut state, Some(ToNetwork::LocalClipboardText { text: "t".to_string() })) {
        SessionAction::Clipboard(ClipboardCommand::OfferText(text)) => assert_eq!(text, "t"),
        _ => panic!("Expected the text"),
    }
    let request = ToNetwork::RequestFileContent { file_index: 1, offset: 2, length: 3 };
    assert!(matches!(
        session_step(&mut state, Some(request)),
        SessionAction::Clipboard(ClipboardCommand::RequestFileContent {
            file_index: 1,
            offset: 2,
            length: 3
        })
    ));
    let request = ToNetwork::RequestFileSize { file_index: 1 };
    assert!(matches!(
        session_step(&mut state, Some(request)),
        SessionAction::Clipboard(ClipboardCommand::RequestFileSize { file_index: 1 })
    ));
}

#[test]
fn rows_of_a_part_are_packed() {
    // A part of 1 by 3 pixels in a picture whose rows have 12 bytes.
    let picture: Vec<u8> = (0..36).collect();
    let part = &picture[4..4 + 2 * 12 + 4];
    let packed = packed_rows(part, 1, 3, 12);
    assert_eq!(packed, vec![4, 5, 6, 7, 16, 17, 18, 19, 28, 29, 30, 31]);
    assert_eq!(packed_rows(&picture, 3, 3, 12), picture);
    assert!(packed_rows(&[], 3, 0, 12).is_empty());
    match frame_report(packed, 1, 0, 1, 3) {
        FromNetwork::Frame(frame) => {
            assert_eq!((frame.width, frame.height, frame.stride), (1, 3, 4));
            assert_eq!(frame.data.len(), 12);
        }
        _ => panic!("Expected a frame"),
    }
}

#[test]
fn outputs_of_the_session() {
    let rect = UpdateRect { left: 10, top: 20, right: 19, bottom: 24 };
    assert!(rect.is_countable());
    assert_eq!(
        output_action(StageOutput::Graphics(rect), 20, 25),
        OutputAction::Draw { x: 10, y: 20, width: 10, height: 5 }
    );
    assert_eq!(output_action(StageOutput::Graphics(rect), 19, 25), OutputAction::Skip);
    assert_eq!(output_action(StageOutput::Graphics(rect), 20, 24), OutputAction::Skip);
    assert_eq!(output_action(StageOutput::Response, 1, 1), OutputAction::Send);
    assert_eq!(output_action(StageOutput::Terminate, 1, 1), OutputAction::End);
    assert_eq!(output_action(StageOutput::Deactivate, 1, 1), OutputAction::End);
    assert_eq!(output_action(StageOutput::Pointer, 1, 1), OutputAction::Skip);
    assert!(!UpdateRect { left: 1, top: 0, right: 0, bottom: 0 }.is_countable());
    assert!(!UpdateRect { left: 0, top: 0, right: 65535, bottom: 0 }.is_countable());
    match frame_report(vec![7; 200], 10, 20, 10, 5) {
        FromNetwork::Frame(frame) => {
            assert_eq!((frame.x, frame.y, frame.width, frame.height), (10, 20, 10, 5));
            assert!(frame.is_valid());
        }
        _ => panic!("Expected a frame"),
    }
}

#[test]
fn clipboard_events_are_reported() {
    let news = clipboard_news(ClipboardEvent::TextReceived { text: "t".to_string() });
    assert_eq!(news.len(), 1);
    assert!(matches!(&news[0], FromNetwork::ClipboardText { text } if text == "t"));
    let news = clipboard_news(ClipboardEvent::FileSizeReceived { stream_id: 4, size: 5 });
    assert!(matches!(
        news[0],
        FromNetwork::ClipboardFileSizeReceived { stream_id: 4, size: 5 }
    ));
    let files = vec![FileInfo { name: "f".to_string(), size: Some(1), is_directory: false }];
    let news = clipboard_news(ClipboardEvent::FilesReceived { files });
    assert_eq!(news.len(), 1);
}

#[test]
fn monitors_are_told_to_the_server() {
    let monitors = vec![
        RdpMonitorInfo::new(0, 0, 1920, 1080, true),
        RdpMonitorInfo::new(1920, 0, 1280, 1024, false)
            .with_scale(150)
            .with_physical_size(300, 200),
    ];
    let layout = build_monitor_layout(&monitors).unwrap();
    let entries: &[MonitorLayoutEntry] = layout.monitors();
    assert_eq!(entries.len(), 2);
    assert!(entries[0].is_primary());
    assert_eq!(entries[0].dimensions(), (1920, 1080));
    assert_eq!(entries[0].orientation(), Some(MonitorOrientation::Landscape));
    assert!(!entries[1].is_primary());
    assert_eq!(entries[1].position(), Some((1920, 0)));
    assert_eq!(entries[1].physical_dimensions(), Some((300, 200)));
}

#[test]
fn layouts_that_cannot_be_told() {
    match build_monitor_layout(&[]) {
        Err(LayoutError::Invalid(s)) => assert_eq!(s, "Monitor layout cannot be empty"),
        _ => panic!("Expected an invalid layout"),
    }
    let monitor = RdpMonitorInfo::new(0, 0, 1920, 1080, true);
    let narrow = vec![RdpMonitorInfo { width: 199, ..monitor }];
    assert!(matches!(build_monitor_layout(&narrow), Err(LayoutError::NotTellable)));
    let odd = vec![RdpMonitorInfo { width: 1921, ..monitor }];
    assert_eq!(build_monitor_layout(&odd).unwrap().monitors()[0].dimensions(), (1920, 1080));
    let small = vec![RdpMonitorInfo { height: 198, ..monitor }];
    assert!(matches!(build_monitor_layout(&small), Err(LayoutError::NotTellable)));
}

#[test]
fn layout_channels() {
    assert!(matches!(layout_channel(true, true, Some(7)), Ok(7)));
    assert!(matches!(
        layout_channel(false, true, Some(7)),
        Err(LayoutError::Channel("DisplayControlClient not found in session"))
    ));
    assert!(matches!(
        layout_channel(true, false, Some(7)),
        Err(LayoutError::Channel("DISPLAYCONTROL channel not open (server may not support it)"))
    ));
    assert!(matches!(
        layout_channel(true, true, None),
        Err(LayoutError::Channel("DISPLAYCONTROL channel has no ID"))
    ));
}

#[test]
fn layout_reports() {
    let monitors = vec![
        RdpMonitorInfo::new(0, 0, 1920, 1080, true),
        RdpMonitorInfo::new(1920, 0, 1280, 1024, false),
    ];
    match layout_report(&monitors, LayoutOutcome::Sent) {
        Some(FromNetwork::MonitorLayoutAccepted { desktop_size }) => {
            assert_eq!((desktop_size.width, desktop_size.height), (3200, 1080));
        }
        _ => panic!("Expected the size"),
    }
    assert!(layout_report(&monitors, LayoutOutcome::NothingToSend).is_none());
    for outcome in [LayoutOutcome::NotEncoded, LayoutOutcome::NotSent] {
        assert!(matches!(
            layout_report(&monitors, outcome),
            Some(FromNetwork::MultiMonitorNotSupported)
        ));
    }
}

#[test]
fn microphone_belongs_to_the_first_connection() {
    let mut network = NetworkLoop::new(true);
    let connect = || ToNetwork::Connect(ConnectionConfig::new("h", 1));
    assert!(matches!(
        network.step(connect()),
        NetworkAction::Connect { with_capture: true, .. }
    ));
    assert!(matches!(
        network.step(connect()),
        NetworkAction::Connect { with_capture: false, .. }
    ));
    let key = ToNetwork::KeyboardInput { scancode: 1, pressed: true };
    assert!(matches!(network.step(key), NetworkAction::Ignore));
    assert!(matches!(network.step(ToNetwork::Disconnect), NetworkAction::Stop));
}

#[test]
fn channels_of_a_connection() {
    let config = ConnectionConfig::new("h", 1);
    let plan = plan_channels(&config, true, true);
    assert!(!plan.display_control && plan.rdpsnd && plan.audin && plan.cliprdr);
    let config = config
        .without_clipboard()
        .with_monitor_layout(vec![RdpMonitorInfo::new(0, 0, 800, 600, true)]);
    let plan = plan_channels(&config, false, true);
    assert!(plan.display_control && !plan.rdpsnd && !plan.audin && !plan.cliprdr);
}

#[test]
fn dial_failures() {
    let text = |f| dial_error(f).message();
    assert_eq!(
        text(DialFailure::Lookup("x".to_string())),
        ConnectionError::DnsResolution("x".to_string()).message()
    );
    assert!(matches!(dial_error(DialFailure::NoAddress),
        ConnectionError::DnsResolution(s) if s == "No addresses found"));
    assert!(matches!(dial_error(DialFailure::TimedOut),
        ConnectionError::Timeout(s) if s == "after 10s"));
    assert!(matches!(dial_error(DialFailure::Connect("Connection refused (os 111)".to_string())),
        ConnectionError::ConnectionRefused(s) if s == "Connection refused (os 111)"));
    assert!(matches!(dial_error(DialFailure::Connect("reset".to_string())),
        ConnectionError::Io(s) if s == "reset"));
    assert!(matches!(dial_error(DialFailure::LocalAddress("gone".to_string())),
        ConnectionError::Io(s) if s == "Failed to get local address: gone"));
}

#[test]
fn waiting_for_the_decision() {
    let decide = |b| WaitEvent::Request(ToNetwork::CertificateDecision(b));
    assert!(matches!(certificate_wait_step(decide(true)), Some(Ok(()))));
    assert!(matches!(certificate_wait_step(decide(false)),
        Some(Err(ConnectionError::CertificateRejected(s)))
            if s == "User rejected the server certificate"));
    assert!(matches!(certificate_wait_step(WaitEvent::Request(ToNetwork::Disconnect)),
        Some(Err(ConnectionError::Io(s))) if s == "Connection cancelled by user"));
    let other = WaitEvent::Request(ToNetwork::MouseMove { x: 1, y: 1 });
    assert!(certificate_wait_step(other).is_none());
    assert!(matches!(certificate_wait_step(WaitEvent::Closed),
        Some(Err(ConnectionError::Io(s))) if s == "Channel closed"));
    assert!(matches!(certificate_wait_step(WaitEvent::Expired),
        Some(Err(ConnectionError::Timeout(s))) if s == "Certificate decision timeout (60s)"));
}

#[test]
fn connection_is_made_step_by_step() {
    let (mut attempt, news) = ConnectAttempt::begin();
    assert!(matches!(news, FromNetwork::Connecting));
    for phase in [
        ConnectPhase::Dialing,
        ConnectPhase::Preparing,
        ConnectPhase::Negotiating,
        ConnectPhase::Securing,
        ConnectPhase::Finishing,
    ] {
        assert!(attempt.step(ConnectEvent::Done).is_empty());
        assert_eq!(attempt.phase, phase);
    }
    let news = attempt.step(ConnectEvent::Finished(DesktopSize::new(800, 600)));
    assert_eq!(news.len(), 1);
    assert!(matches!(&news[0], FromNetwork::Connected(s) if s.width == 800 && s.height == 600));
    assert!(attempt.step(ConnectEvent::Done).is_empty());
    assert_eq!(attempt.phase, ConnectPhase::InSession);
    let news = attempt.step(ConnectEvent::Broke("lost".to_string()));
    assert_eq!(news.len(), 2);
    assert!(matches!(&news[0], FromNetwork::Error(ConnectionError::Protocol(s)) if s == "lost"));
    assert!(matches!(news[1], FromNetwork::Disconnected));
    assert!(attempt.step(ConnectEvent::Done).is_empty());
    assert_eq!(attempt.phase, ConnectPhase::Over);
}

#[test]
fn failed_steps_end_the_attempt() {
    let mut attempt = ConnectAttempt { phase: ConnectPhase::Negotiating };
    let news = attempt.step(ConnectEvent::Broke("x".to_string()));
    assert!(matches!(&news[0], FromNetwork::Error(ConnectionError::Protocol(s))
        if s == "RDP negotiation failed: x"));
    assert_eq!(attempt.phase, ConnectPhase::Over);
    let mut attempt = ConnectAttempt { phase: ConnectPhase::Finishing };
    let news = attempt.step(ConnectEvent::Broke("Access denied".to_string()));
    assert!(matches!(&news[0], FromNetwork::Error(ConnectionError::AuthenticationFailed(s))
        if s == "Access denied"));
    let mut attempt = ConnectAttempt { phase: ConnectPhase::Finishing };
    let news = attempt.step(ConnectEvent::Broke("x".to_string()));
    assert!(matches!(&news[0], FromNetwork::Error(ConnectionError::Protocol(s))
        if s == "RDP handshake failed: x"));
    let mut attempt = ConnectAttempt { phase: ConnectPhase::Dialing };
    let news = attempt.step(ConnectEvent::Failed(ConnectionError::Io("x".to_string())));
    assert!(matches!(&news[0], FromNetwork::Error(ConnectionError::Io(s)) if s == "x"));
    let mut attempt = ConnectAttempt { phase: ConnectPhase::Announcing };
    assert!(attempt.step(ConnectEvent::MainGone).is_empty());
    assert_eq!(attempt.phase, ConnectPhase::Over);
}
