//! The program that the user runs.
use yard::client::downloads::{begin_downloads, content_arrived, download_failed, size_arrived};
use yard::client::prompt::{
    certificate_prompt, check_password, is_consent, password_prompt, read_consent, server_name,
    truncate_string,
};
use yard::client::settings::{
    complete_config, connection_config, effective_settings, needs_password, ConnectOptions,
};
use yard::client::window::{
    connected_overlay, disconnected_overlay, headless_step, mouse_button, overlay_due, setup_step,
    MonitorGeometry, NewsAction, SetupAction, WindowAction, WindowEvent, WindowState,
};
use yard::client::{exit_codes, log_filter, map_error_to_exit_code, LogFilter};
use yard::cliprdr::file_transfer::SizePlan;
use yard::cliprdr::FileInfo;
use yard::config::{Config, ConnectionProfile};
use yard::messages::{
    CertificateInfo, ConnectionConfig, ConnectionError, FromNetwork, MouseButton, ToNetwork,
};
use yard::monitors::DesktopSize;
use yard::video::DecodedFrame;

fn config_with_profile(name: &str, host: &str) -> Config {
    let mut config = Config::default();
    config.profiles.set(name, ConnectionProfile::new(host));
    config
}

fn config_with_full_profile() -> Config {
    let mut config = Config::default();
    config.profiles.set(
        "work",
        ConnectionProfile {
            host: "work.example.com".to_string(),
            port: Some(13389),
            username: Some("john".to_string()),
            domain: Some("CORP".to_string()),
            fullscreen: Some(true),
            all_monitors: Some(true),
            audio: Some(true),
            microphone: Some(false),
            clipboard: Some(true),
        },
    );
    config
}

fn work() -> ConnectOptions {
    ConnectOptions::new("work")
}

#[test]
fn test_truncate_string_short() {
    assert_eq!(truncate_string("hello", 10), "hello");
}

#[test]
fn test_truncate_string_exact() {
    assert_eq!(truncate_string("hello", 5), "hello");
}

#[test]
fn test_truncate_string_long() {
    assert_eq!(truncate_string("hello world", 8), "hello...");
}

#[test]
fn test_truncate_string_very_short_max() {
    // When max_len <= 3, just truncate without ellipsis
    assert_eq!(truncate_string("hello", 3), "hel");
    assert_eq!(truncate_string("hello", 2), "he");
}

#[test]
fn test_truncate_string_empty() {
    assert_eq!(truncate_string("", 10), "");
}

#[test]
fn test_truncate_string_multibyte_safe() {
    // UTF-8 multi-byte characters should not panic
    assert_eq!(truncate_string("héllo", 4), "h...");
    assert_eq!(truncate_string("日本語テスト", 5), "日本...");
    assert_eq!(truncate_string("émoji🎉test", 6), "émo...");
}

#[test]
fn test_profile_detection_exists() {
    let config = config_with_profile("work", "work.example.com");
    assert!(config.has_profile("work"));
    assert!(!config.has_profile("nonexistent"));
}

#[test]
fn test_profile_detection_hostname_fallback() {
    // When no profile matches, the argument should be treated as hostname
    let config = Config::default();
    assert!(!config.has_profile("server.example.com"));
    assert!(!config.has_profile("192.168.1.100"));
}

#[test]
fn test_profile_get_host() {
    let config = config_with_profile("myserver", "actual-host.example.com");
    let profile = config.get_profile("myserver").unwrap();
    assert_eq!(profile.host, "actual-host.example.com");
}

#[test]
fn test_profile_all_fields_parsed() {
    let config = config_with_full_profile();
    let profile = config.get_profile("work").unwrap();

    assert_eq!(profile.host, "work.example.com");
    assert_eq!(profile.port, Some(13389));
    assert_eq!(profile.username, Some("john".to_string()));
    assert_eq!(profile.domain, Some("CORP".to_string()));
    assert_eq!(profile.fullscreen, Some(true));
    assert_eq!(profile.all_monitors, Some(true));
    assert_eq!(profile.audio, Some(true));
    assert_eq!(profile.microphone, Some(false));
    assert_eq!(profile.clipboard, Some(true));
}

#[test]
fn test_profile_minimal_only_host() {
    let config = config_with_profile("minimal", "server.test.com");
    let profile = config.get_profile("minimal").unwrap();

    assert_eq!(profile.host, "server.test.com");
    assert!(profile.port.is_none());
    assert!(profile.username.is_none());
    assert!(profile.domain.is_none());
    assert!(profile.fullscreen.is_none());
    assert!(profile.all_monitors.is_none());
    assert!(profile.audio.is_none());
    assert!(profile.microphone.is_none());
    assert!(profile.clipboard.is_none());
}

#[test]
fn test_merge_cli_overrides_profile_port() {
    let cli = ConnectOptions { port: Some(3390), ..work() };
    let settings = effective_settings(&config_with_full_profile(), &cli);
    assert_eq!(settings.port, 3390); // CLI wins
}

#[test]
fn test_merge_profile_provides_port_when_cli_none() {
    let settings = effective_settings(&config_with_full_profile(), &work());
    assert_eq!(settings.port, 13389); // Profile wins
}

#[test]
fn test_merge_default_port_when_neither_provides() {
    let config = config_with_profile("minimal", "server.test.com");
    let settings = effective_settings(&config, &ConnectOptions::new("minimal"));
    assert_eq!(settings.port, 3389); // Default wins
}

#[test]
fn test_merge_cli_overrides_profile_username() {
    let cli = ConnectOptions { username: Some("override-user".to_string()), ..work() };
    let settings = effective_settings(&config_with_full_profile(), &cli);
    assert_eq!(settings.username, Some("override-user".to_string()));
}

#[test]
fn test_merge_fullscreen_cli_flag_additive() {
    let config = config_with_profile("no-fullscreen", "server.test.com");
    let cli = ConnectOptions { fullscreen: true, ..ConnectOptions::new("no-fullscreen") };
    assert!(effective_settings(&config, &cli).fullscreen); // CLI flag enables it
}

#[test]
fn test_merge_fullscreen_from_profile() {
    let settings = effective_settings(&config_with_full_profile(), &work());
    assert!(settings.fullscreen); // Profile enables it
}

#[test]
fn test_merge_no_audio_flag_overrides_profile() {
    let cli = ConnectOptions { no_audio: true, ..work() };
    assert!(!effective_settings(&config_with_full_profile(), &cli).audio); // CLI --no-audio wins
}

#[test]
fn test_merge_audio_from_profile_when_no_flag() {
    assert!(effective_settings(&config_with_full_profile(), &work()).audio); // Profile enables it
}

#[test]
fn test_merge_microphone_disabled_by_profile() {
    let settings = effective_settings(&config_with_full_profile(), &work());
    assert!(!settings.microphone); // Profile disables it
}

#[test]
fn test_empty_string_not_profile() {
    // Empty string should never match a profile
    let config = Config::default();
    // Empty profile name can't exist
    assert!(!config.has_profile(""));
}

#[test]
fn test_profile_name_looks_like_hostname() {
    let config = config_with_profile("server.local", "real-server.example.com");
    assert!(config.has_profile("server.local"));

    let profile = config.get_profile("server.local").unwrap();
    assert_eq!(profile.host, "real-server.example.com");
    let settings = effective_settings(&config, &ConnectOptions::new("server.local"));
    assert_eq!(settings.host, "real-server.example.com");
}

#[test]
fn test_merge_no_clipboard_flag_overrides_profile() {
    let cli = ConnectOptions { no_clipboard: true, ..work() };
    let settings = effective_settings(&config_with_full_profile(), &cli);
    assert!(!settings.clipboard); // CLI --no-clipboard wins
}

#[test]
fn test_merge_clipboard_from_profile_when_no_flag() {
    let settings = effective_settings(&config_with_full_profile(), &work());
    assert!(settings.clipboard); // Profile enables it
}

#[test]
fn test_merge_cli_overrides_profile_domain() {
    let cli = ConnectOptions { domain: Some("OVERRIDE-DOMAIN".to_string()), ..work() };
    let settings = effective_settings(&config_with_full_profile(), &cli);
    assert_eq!(settings.domain, Some("OVERRIDE-DOMAIN".to_string()));
}

#[test]
fn test_merge_domain_from_profile_when_cli_none() {
    let settings = effective_settings(&config_with_full_profile(), &work());
    assert_eq!(settings.domain, Some("CORP".to_string())); // Profile wins
}

#[test]
fn test_merge_all_monitors_from_profile() {
    let settings = effective_settings(&config_with_full_profile(), &work());
    assert!(settings.all_monitors); // Profile enables it
}

#[test]
fn test_merge_all_monitors_cli_flag_additive() {
    let config = config_with_profile("no-monitors", "server.test.com");
    let cli = ConnectOptions { all_monitors: true, ..ConnectOptions::new("no-monitors") };
    assert!(effective_settings(&config, &cli).all_monitors); // CLI flag enables it
}

#[test]
fn test_hostname_fallback_preserves_cli_settings() {
    // When host is NOT a profile name, CLI settings should still work
    let config = Config::default();
    let host = "server.example.com";
    assert!(!config.has_profile(host)); // Not a profile

    let cli = ConnectOptions {
        port: Some(3390),
        username: Some("testuser".to_string()),
        ..ConnectOptions::new(host)
    };
    let settings = effective_settings(&config, &cli);
    assert_eq!(settings.host, host);
    assert_eq!(settings.port, 3390);
    assert_eq!(settings.username, Some("testuser".to_string()));
}

#[test]
fn test_defaults_fullscreen_applied_when_no_cli_or_profile() {
    let mut config = Config::default();
    config.defaults.fullscreen = Some(true);
    assert!(effective_settings(&config, &ConnectOptions::new("h")).fullscreen);
}

#[test]
fn test_defaults_all_monitors_applied_when_no_cli_or_profile() {
    let mut config = Config::default();
    config.defaults.all_monitors = Some(true);
    assert!(effective_settings(&config, &ConnectOptions::new("h")).all_monitors);
}

#[test]
fn test_cli_fullscreen_flag_overrides_defaults_false() {
    let mut config = Config::default();
    config.defaults.fullscreen = Some(false);
    let cli = ConnectOptions { fullscreen: true, ..ConnectOptions::new("h") };
    assert!(effective_settings(&config, &cli).fullscreen); // CLI -f wins
}

#[test]
fn test_cli_no_fullscreen_overrides_defaults_true() {
    let mut config = Config::default();
    config.defaults.fullscreen = Some(true);
    let cli = ConnectOptions { no_fullscreen: true, ..ConnectOptions::new("h") };
    assert!(!effective_settings(&config, &cli).fullscreen); // CLI --no-fullscreen wins
}

#[test]
fn test_cli_no_fullscreen_overrides_profile_true() {
    let cli = ConnectOptions { no_fullscreen: true, ..work() };
    let settings = effective_settings(&config_with_full_profile(), &cli);
    assert!(!settings.fullscreen); // CLI --no-fullscreen wins over profile
}

#[test]
fn test_no_fullscreen_with_defaults_all_monitors() {
    let mut config = Config::default();
    config.defaults.fullscreen = Some(true);
    config.defaults.all_monitors = Some(true);
    let cli = ConnectOptions { no_fullscreen: true, ..ConnectOptions::new("h") };
    let settings = effective_settings(&config, &cli);

    // --no-fullscreen disables fullscreen
    assert!(!settings.fullscreen);
    // all_monitors is independent of the fullscreen flag
    assert!(settings.all_monitors);
}

#[test]
fn test_profile_fullscreen_overrides_defaults() {
    let mut config = config_with_full_profile();
    config.defaults.fullscreen = Some(false);
    assert!(effective_settings(&config, &work()).fullscreen); // Profile wins over defaults
}

#[test]
fn test_defaults_overrides_builtin_default() {
    // Config has no defaults section, built-in default should be false
    let settings = effective_settings(&Config::default(), &ConnectOptions::new("h"));
    assert!(!settings.fullscreen); // Built-in default = false
}

#[test]
fn test_precedence_chain_cli_profile_defaults_builtin() {
    // Full precedence chain: CLI > profile > defaults > built-in
    let mut config = Config::default();
    config.defaults.fullscreen = Some(true);
    config.defaults.all_monitors = Some(true);
    let profile =
        ConnectionProfile { fullscreen: Some(false), ..ConnectionProfile::new("work.example.com") };
    config.profiles.set("work", profile);

    // Profile says fullscreen = false, defaults says true
    // Profile should win
    let settings = effective_settings(&config, &work());
    assert!(!settings.fullscreen);
    assert!(settings.all_monitors);
}

#[test]
fn test_defaults_backward_compat_no_fullscreen_field() {
    let mut config = Config::default();
    config.defaults.port = 3389;

    // defaults.fullscreen should be None
    assert!(config.defaults.fullscreen.is_none());
    assert!(config.defaults.all_monitors.is_none());

    // Should fall back to built-in default (false)
    assert!(!effective_settings(&config, &ConnectOptions::new("h")).fullscreen);
}

#[test]
fn explicit_domain_counts_more_than_the_typed_one() {
    let cli = ConnectOptions {
        username: Some("OLD\\user".to_string()),
        domain: Some("NEW".to_string()),
        ..ConnectOptions::new("h")
    };
    let config = connection_config(&effective_settings(&Config::default(), &cli));
    assert_eq!(config.username, Some("user".to_string()));
    assert_eq!(config.domain, Some("NEW".to_string()));
    let cli = ConnectOptions { username: Some("OLD\\user".to_string()), ..ConnectOptions::new("h") };
    let config = connection_config(&effective_settings(&Config::default(), &cli));
    assert_eq!(config.domain, Some("OLD".to_string()));
    assert!(needs_password(&config));
    assert!(!needs_password(&ConnectionConfig::new("h", 1)));
}

#[test]
fn password_and_clipboard_complete_the_configuration() {
    let config = complete_config(ConnectionConfig::new("h", 1), Some("p".to_string()), false);
    assert_eq!(config.password, Some("p".to_string()));
    assert!(!config.clipboard_enabled);
    let config = complete_config(ConnectionConfig::new("h", 1), None, true);
    assert!(config.password.is_none());
    assert!(config.clipboard_enabled);
}

#[test]
fn password_prompts() {
    let config = ConnectionConfig::new("h", 1);
    assert_eq!(password_prompt(&config), "Password: ");
    let config = config.with_username("u");
    assert_eq!(password_prompt(&config), "Password for u: ");
    let config = config.with_domain("D");
    assert_eq!(password_prompt(&config), "Password for D\\u: ");
    assert_eq!(check_password(""), Err("Password cannot be empty"));
    assert_eq!(check_password("x"), Ok(()));
}

#[test]
fn consent_is_yes_in_any_case() {
    assert!(is_consent("y"));
    assert!(is_consent("yes"));
    assert!(!is_consent("Y"));
    assert!(read_consent(" YES\n"));
    assert!(read_consent("y\r\n"));
    assert!(read_consent("\u{A0}y\u{3000}"));
    assert!(!read_consent("\u{200B}y"));
    assert!(!read_consent("no"));
    assert!(!read_consent(""));
    assert!(!read_consent("yess"));
}

#[test]
fn certificate_question_is_framed() {
    let cert = CertificateInfo::new("SHA256:AB", "CA", "2024", "2025").with_common_name("cn");
    let lines = certificate_prompt("server:3389", &cert);
    assert_eq!(lines.len(), 11);
    assert_eq!(lines[0], "");
    assert_eq!(lines[2], format!("│ Unknown certificate from {:<38} │", "server:3389"));
    assert_eq!(lines[4], format!("│ {:<63} │", "Fingerprint: SHA256:AB"));
    assert_eq!(lines[5], format!("│ {:<63} │", "Subject:     CN=cn"));
    assert_eq!(lines[6], format!("│ {:<63} │", "Issuer:      CA"));
    assert_eq!(lines[7], format!("│ {:<63} │", "Valid:       2024 to 2025"));
    assert!(lines[9].contains("Accept this certificate? [y/N]"));
    for line in &lines[1..] {
        assert_eq!(line.chars().count(), 67);
    }
}

#[test]
fn certificate_question_splits_lines_like_the_terminal() {
    let cert = CertificateInfo::new("F", "one\r\ntwo\n", "a", "b");
    let lines = certificate_prompt("s", &cert);
    let shown: Vec<&str> = lines[4..lines.len() - 3].iter().map(|l| l.as_str()).collect();
    let text = cert.display();
    let expected: Vec<String> = text.lines().map(|l| format!("│ {:<63} │", l)).collect();
    assert_eq!(shown, expected);
}

#[test]
fn server_stands_behind_the_at_sign() {
    assert_eq!(server_name("YARD - user@server:3389"), "server:3389");
    assert_eq!(server_name("YARD - a@b@c"), "b");
    assert_eq!(server_name("YARD"), "Unknown");
}

#[test]
fn exit_codes_of_errors() {
    let text = "x".to_string();
    assert_eq!(map_error_to_exit_code(&ConnectionError::AuthenticationFailed(text.clone())), 2);
    assert_eq!(map_error_to_exit_code(&ConnectionError::Protocol(text.clone())), 3);
    assert_eq!(map_error_to_exit_code(&ConnectionError::Io(text.clone())), 1);
    assert_eq!(map_error_to_exit_code(&ConnectionError::Timeout(text)), 1);
    assert_eq!(exit_codes::SUCCESS, 0);
}

#[test]
fn log_filters() {
    assert!(matches!(log_filter(true, true), LogFilter::Environment));
    assert!(matches!(log_filter(false, false), LogFilter::Directives("warn")));
    match log_filter(false, true) {
        LogFilter::Directives(d) => assert!(d.starts_with("warn,yard_client=debug")),
        LogFilter::Environment => panic!("Expected directives"),
    }
}

#[test]
fn setup_waits_for_the_desktop() {
    assert!(matches!(setup_step(Some(FromNetwork::Connecting)), SetupAction::Wait));
    match setup_step(Some(FromNetwork::Connected(DesktopSize::new(800, 600)))) {
        SetupAction::Ready(size) => assert_eq!((size.width, size.height), (800, 600)),
        _ => panic!("Expected the size"),
    }
    let accepted = FromNetwork::MonitorLayoutAccepted { desktop_size: DesktopSize::new(1, 2) };
    assert!(matches!(setup_step(Some(accepted)), SetupAction::Ready(_)));
    assert!(matches!(setup_step(Some(FromNetwork::Disconnected)), SetupAction::Exit(0)));
    assert!(matches!(setup_step(None), SetupAction::Exit(1)));
    let denied = ConnectionError::AuthenticationFailed("no".to_string());
    assert!(matches!(setup_step(Some(FromNetwork::Error(denied))), SetupAction::Exit(2)));
    let verify = FromNetwork::CertificateVerify {
        server: "s".to_string(),
        cert_info: CertificateInfo::new("F", "I", "a", "b"),
    };
    match setup_step(Some(verify)) {
        SetupAction::AskCertificate { server, cert_info } => {
            assert_eq!(server, "s");
            assert_eq!(cert_info.fingerprint, "F");
        }
        _ => panic!("Expected the question"),
    }
}

#[test]
fn headless_only_waits_for_the_end() {
    let connected = FromNetwork::Connected(DesktopSize::new(800, 600));
    assert!(matches!(headless_step(Some(connected)), SetupAction::Wait));
    assert!(matches!(headless_step(Some(FromNetwork::Disconnected)), SetupAction::Exit(0)));
    let broken = ConnectionError::Protocol("x".to_string());
    assert!(matches!(headless_step(Some(FromNetwork::Error(broken))), SetupAction::Exit(3)));
    assert!(matches!(headless_step(None), SetupAction::Exit(1)));
}

#[test]
fn news_reach_the_window() {
    let mut state = WindowState::new();
    assert!(matches!(state.on_event(WindowEvent::Resized), WindowAction::DrawPlaceholder));
    assert!(matches!(state.on_event(WindowEvent::RedrawRequested), WindowAction::DrawPlaceholder));
    let frame = FromNetwork::Frame(DecodedFrame::new(vec![0; 16], 2, 2));
    assert!(matches!(state.on_news(Some(frame), false), NewsAction::Draw(_)));
    assert!(matches!(state.on_event(WindowEvent::Resized), WindowAction::Nothing));
    let latency = FromNetwork::LatencyUpdate { rtt_ms: 30 };
    assert!(matches!(state.on_news(Some(latency), false), NewsAction::Nothing));
    assert_eq!(state.latest_rtt_ms, Some(30));
    let latency = FromNetwork::LatencyUpdate { rtt_ms: 31 };
    assert!(matches!(state.on_news(Some(latency), true), NewsAction::RefreshOverlay));
    let text = FromNetwork::ClipboardText { text: "t".to_string() };
    match state.on_news(Some(text), false) {
        NewsAction::SetClipboardText(t) => assert_eq!(t, "t"),
        _ => panic!("Expected the text"),
    }
    match state.on_news(Some(FromNetwork::Disconnected), false) {
        NewsAction::Exit { code, reason } => {
            assert_eq!(code, 0);
            assert_eq!(reason, Some("Connection closed".to_string()));
        }
        _ => panic!("Expected the end"),
    }
    let refused = ConnectionError::ConnectionRefused("r".to_string());
    let reason_text = refused.message();
    match state.on_news(Some(FromNetwork::Error(refused)), false) {
        NewsAction::Exit { code, reason } => {
            assert_eq!(code, 1);
            assert_eq!(reason, Some(reason_text));
        }
        _ => panic!("Expected the end"),
    }
    assert!(matches!(state.on_news(None, false), NewsAction::Exit { code: 1, reason: None }));
}

#[test]
fn window_events_become_requests() {
    let state = WindowState::new();
    match state.on_event(WindowEvent::KeyPressed { scancode: 0x1E }) {
        WindowAction::Send(ToNetwork::KeyboardInput { scancode, pressed }) => {
            assert_eq!(scancode, 0x1E);
            assert!(pressed);
        }
        _ => panic!("Expected the key"),
    }
    let click = WindowEvent::MouseButton { button: 0x111, pressed: false, x: 3, y: 4 };
    match state.on_event(click) {
        WindowAction::Send(ToNetwork::MouseButton { button, pressed, x, y }) => {
            assert_eq!(button, MouseButton::Right);
            assert!(!pressed);
            assert_eq!((x, y), (3, 4));
        }
        _ => panic!("Expected the click"),
    }
    let unknown = WindowEvent::MouseButton { button: 0x113, pressed: true, x: 0, y: 0 };
    assert!(matches!(state.on_event(unknown), WindowAction::Nothing));
    let still = WindowEvent::MouseAxis { horizontal: false, delta: 0, x: 0, y: 0 };
    assert!(matches!(state.on_event(still), WindowAction::Nothing));
    let turned = WindowEvent::MouseAxis { horizontal: true, delta: -120, x: 1, y: 2 };
    assert!(matches!(
        state.on_event(turned),
        WindowAction::Send(ToNetwork::MouseWheel { horizontal: true, delta: -120, x: 1, y: 2 })
    ));
    assert!(matches!(
        state.on_event(WindowEvent::CloseRequested),
        WindowAction::SendAndExit(ToNetwork::Disconnect, 0)
    ));
    assert!(matches!(state.on_event(WindowEvent::DisconnectShortcut), WindowAction::Exit(0)));
    assert!(matches!(
        state.on_event(WindowEvent::DisconnectRequested),
        WindowAction::AbandonAndSend(ToNetwork::Disconnect)
    ));
    let toggle = WindowEvent::ToggleFullscreenShortcut { multi_monitor: true };
    assert!(matches!(state.on_event(toggle), WindowAction::ToggleAllFullscreen));
    let shown = WindowEvent::OverlayVisibilityChanged { visible: true };
    assert!(matches!(state.on_event(shown), WindowAction::RefreshOverlay));
    assert_eq!(mouse_button(0x110), Some(MouseButton::Left));
    assert_eq!(mouse_button(0x112), Some(MouseButton::Middle));
}

#[test]
fn monitor_at_the_origin_is_primary() {
    let state = WindowState::new();
    let monitors = vec![
        MonitorGeometry { id: 1, width: 10, height: 20, x: 0, y: 0 },
        MonitorGeometry { id: 2, width: 30, height: 40, x: 10, y: 0 },
    ];
    match state.on_event(WindowEvent::MonitorLayoutChanged { monitors }) {
        WindowAction::Send(ToNetwork::UpdateMonitorLayout { monitors }) => {
            assert_eq!(monitors.len(), 2);
            assert!(monitors[0].is_primary);
            assert!(!monitors[1].is_primary);
            assert_eq!((monitors[1].id, monitors[1].width, monitors[1].height), (2, 30, 40));
        }
        _ => panic!("Expected the monitors"),
    }
}

#[test]
fn overlays() {
    let up = connected_overlay("s", 1500, Some(20));
    assert!(up.connected && up.disconnect_reason.is_none());
    assert_eq!((up.server_name.as_str(), up.session_millis, up.rtt_ms), ("s", 1500, Some(20)));
    let down = disconnected_overlay("s", 2500, "gone".to_string());
    assert!(!down.connected && down.rtt_ms.is_none());
    assert_eq!(down.disconnect_reason, Some("gone".to_string()));
    assert!(overlay_due(true, 1));
    assert!(!overlay_due(true, 0));
    assert!(!overlay_due(false, 5));
}

fn remote_file(name: &str, size: Option<u64>) -> FileInfo {
    FileInfo { name: name.to_string(), size, is_directory: false }
}

#[test]
fn downloads_run_one_after_the_other() {
    let files = vec![remote_file("a", Some(3)), remote_file("b", Some(0))];
    let (mut manager, step) = begin_downloads("/tmp/yard".to_string(), &files);
    assert!(matches!(
        step.request,
        Some(ToNetwork::RequestFileSize { file_index: 0 })
    ));

    let step = size_arrived(&mut manager, 1, 3, Ok(()));
    assert!(matches!(
        step.request,
        Some(ToNetwork::RequestFileContent { file_index: 0, offset: 0, length: 3 })
    ));
    let step = content_arrived(&mut manager, 2, b"abc", Ok(()), Ok(()));
    assert!(matches!(
        step.request,
        Some(ToNetwork::RequestFileSize { file_index: 1 })
    ));
    assert!(step.clipboard.is_none());

    let step = size_arrived(&mut manager, 3, 0, Ok(()));
    assert!(step.request.is_none());
    assert_eq!(
        step.clipboard,
        Some(vec!["/tmp/yard/a".to_string(), "/tmp/yard/b".to_string()])
    );
}

#[test]
fn failed_download_makes_room_for_the_next() {
    let files = vec![remote_file("a", Some(3)), remote_file("b", Some(3))];
    let (mut manager, _) = begin_downloads("/tmp/yard".to_string(), &files);
    size_arrived(&mut manager, 1, 3, Ok(()));
    let (removed, step) = download_failed(&mut manager, 2);
    assert_eq!(removed, Some("/tmp/yard/.a.part".to_string()));
    assert!(matches!(
        step.request,
        Some(ToNetwork::RequestFileSize { file_index: 1 })
    ));
    assert!(step.clipboard.is_none());
}

#[test]
fn each_list_has_identifiers_from_one_on() {
    let (mut first, _) = begin_downloads("/tmp/yard".to_string(), &[remote_file("a", Some(3))]);
    size_arrived(&mut first, 1, 3, Ok(()));
    let (mut second, step) =
        begin_downloads("/tmp/yard".to_string(), &[remote_file("b", Some(4))]);
    assert!(matches!(step.request, Some(ToNetwork::RequestFileSize { file_index: 0 })));
    let step = size_arrived(&mut second, 1, 4, Ok(()));
    assert!(matches!(
        step.request,
        Some(ToNetwork::RequestFileContent { file_index: 0, offset: 0, length: 4 })
    ));
    let step = content_arrived(&mut second, 2, b"abcd", Ok(()), Ok(()));
    assert_eq!(step.clipboard, Some(vec!["/tmp/yard/b".to_string()]));
}

#[test]
fn names_that_lead_out_of_the_directory_are_refused() {
    for name in ["../x", "/tmp/x", "..", ".", "", "a/b"] {
        let files = vec![remote_file(name, Some(3)), remote_file("b", Some(0))];
        let (mut manager, _) = begin_downloads("/tmp/yard".to_string(), &files);
        assert!(matches!(manager.plan_size_response(1, 3), SizePlan::Nothing));
        let step = size_arrived(&mut manager, 1, 3, Ok(()));
        assert!(matches!(
            step.request,
            Some(ToNetwork::RequestFileSize { file_index: 1 })
        ));
        let step = size_arrived(&mut manager, 2, 0, Ok(()));
        assert_eq!(step.clipboard, Some(vec!["/tmp/yard/b".to_string()]));
    }
}

#[test]
fn unknown_answer_changes_nothing() {
    let files = [remote_file("a", Some(3))];
    let (mut manager, _) = begin_downloads("/tmp/yard".to_string(), &files);
    let step = size_arrived(&mut manager, 77, 3, Ok(()));
    assert!(step.request.is_none() && step.clipboard.is_none());
    assert_eq!(manager.active_count(), 1);
}
