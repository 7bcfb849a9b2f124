//! Messages between the threads.
use yard::messages::{
    CertificateInfo, ConnectionConfig, ConnectionError, FromNetwork, MouseButton, ToNetwork,
};
use yard::monitors::{validate_monitor_layout, DesktopSize, RdpMonitorInfo, RdpMonitorLayout};
use yard::video::DecodedFrame;

#[test]
fn test_connection_config_new() {
    let config = ConnectionConfig::new("example.com", 3389);
    assert_eq!(config.host, "example.com");
    assert_eq!(config.port, 3389);
    assert!(config.username.is_none());
    assert!(config.domain.is_none());
    assert!(config.password.is_none());
}

#[test]
fn test_connection_config_with_username() {
    let config = ConnectionConfig::new("example.com", 3389).with_username("admin");
    assert_eq!(config.username, Some("admin".to_string()));
}

#[test]
fn test_connection_config_with_domain() {
    let config = ConnectionConfig::new("example.com", 3389).with_domain("CORP");
    assert_eq!(config.domain, Some("CORP".to_string()));
}

#[test]
fn test_connection_config_address() {
    let config = ConnectionConfig::new("server.local", 3390);
    assert_eq!(config.address(), "server.local:3390");
}

#[test]
fn test_connection_config_builder_chain() {
    let config = ConnectionConfig::new("host", 3389)
        .with_username("user")
        .with_domain("domain");
    assert_eq!(config.host, "host");
    assert_eq!(config.username, Some("user".to_string()));
    assert_eq!(config.domain, Some("domain".to_string()));
}

#[test]
fn test_connection_config_with_password() {
    let config = ConnectionConfig::new("host", 3389).with_password("secret123");
    assert_eq!(config.password, Some("secret123".to_string()));
}

#[test]
fn test_connection_config_has_credentials() {
    let config = ConnectionConfig::new("host", 3389);
    assert!(!config.has_credentials());

    let config = config.with_username("user");
    assert!(!config.has_credentials());

    let config = config.with_password("pass");
    assert!(config.has_credentials());
}

#[test]
fn test_connection_config_debug_redacts_password() {
    let config = ConnectionConfig::new("host", 3389)
        .with_username("user")
        .with_password("supersecret");
    let debug_output = config.debug_text();
    assert!(debug_output.contains("[REDACTED]"));
    assert!(!debug_output.contains("supersecret"));
}

#[test]
fn test_connection_error_display_dns() {
    let err = ConnectionError::DnsResolution("no such host".to_string());
    let msg = err.message();
    assert!(msg.contains("Cannot resolve hostname"));
    assert!(msg.contains("no such host"));
}

#[test]
fn test_connection_error_display_refused() {
    let err = ConnectionError::ConnectionRefused("connection refused".to_string());
    let msg = err.message();
    assert!(msg.contains("Connection refused"));
    assert!(msg.contains("Server may not be running"));
}

#[test]
fn test_connection_error_display_timeout() {
    let err = ConnectionError::Timeout("after 10s".to_string());
    let msg = err.message();
    assert!(msg.contains("Connection timeout"));
    assert!(msg.contains("after 10s"));
}

#[test]
fn test_connection_error_display_tls() {
    let err = ConnectionError::TlsError("certificate expired".to_string());
    let msg = err.message();
    assert!(msg.contains("TLS error"));
    assert!(msg.contains("certificate"));
}

#[test]
fn test_connection_error_display_auth() {
    let err = ConnectionError::AuthenticationFailed("bad password".to_string());
    let msg = err.message();
    assert!(msg.contains("Authentication failed"));
    assert!(msg.contains("credentials"));
}

#[test]
fn test_connection_error_display_protocol() {
    let err = ConnectionError::Protocol("invalid packet".to_string());
    let msg = err.message();
    assert!(msg.contains("Protocol error"));
}

#[test]
fn test_connection_error_display_io() {
    let err = ConnectionError::Io("broken pipe".to_string());
    let msg = err.message();
    assert!(msg.contains("I/O error"));
    assert!(msg.contains("broken pipe"));
}

#[test]
fn test_to_network_debug() {
    let msg = ToNetwork::Connect(ConnectionConfig::new("test", 3389));
    let debug = msg.debug_text();
    assert!(debug.contains("Connect"));
}

#[test]
fn test_from_network_debug() {
    let msg = FromNetwork::Connecting;
    let debug = format!("{:?}", msg);
    assert!(debug.contains("Connecting"));
}

#[test]
fn test_from_network_frame_debug() {
    let frame = DecodedFrame::new(vec![0u8; 16], 2, 2);
    let msg = FromNetwork::Frame(frame);
    let debug = format!("{:?}", msg);
    assert!(debug.contains("Frame"));
    assert!(debug.contains("DecodedFrame"));
}

#[test]
fn test_parse_username_plain() {
    let (user, domain) = ConnectionConfig::parse_username("john");
    assert_eq!(user, "john");
    assert!(domain.is_none());
}

#[test]
fn test_parse_username_nt_style() {
    let (user, domain) = ConnectionConfig::parse_username("CORP\\john");
    assert_eq!(user, "john");
    assert_eq!(domain, Some("CORP".to_string()));
}

#[test]
fn test_parse_username_nt_style_local() {
    let (user, domain) = ConnectionConfig::parse_username(".\\admin");
    assert_eq!(user, "admin");
    assert!(domain.is_none()); // Local machine, no domain
}

#[test]
fn test_parse_username_upn_style() {
    let (user, domain) = ConnectionConfig::parse_username("john@corp.example.com");
    assert_eq!(user, "john");
    assert_eq!(domain, Some("corp.example.com".to_string()));
}

#[test]
fn test_parse_username_email_not_upn() {
    // Email-like but without dots in domain part - not treated as UPN
    let (user, domain) = ConnectionConfig::parse_username("john@localhost");
    assert_eq!(user, "john@localhost");
    assert!(domain.is_none());
}

#[test]
fn test_from_username_nt_style() {
    let config = ConnectionConfig::from_username("server", 3389, "DOMAIN\\user");
    assert_eq!(config.username, Some("user".to_string()));
    assert_eq!(config.domain, Some("DOMAIN".to_string()));
    assert_eq!(config.host, "server");
}

#[test]
fn test_from_username_upn_style() {
    let config = ConnectionConfig::from_username("server", 3389, "user@domain.com");
    assert_eq!(config.username, Some("user".to_string()));
    assert_eq!(config.domain, Some("domain.com".to_string()));
}

#[test]
fn test_from_username_plain() {
    let config = ConnectionConfig::from_username("server", 3389, "admin");
    assert_eq!(config.username, Some("admin".to_string()));
    assert!(config.domain.is_none());
}

#[test]
fn test_mouse_button_enum() {
    // Verify MouseButton variants exist and are Debug-able
    let left = MouseButton::Left;
    let right = MouseButton::Right;
    let middle = MouseButton::Middle;

    assert_eq!(format!("{:?}", left), "Left");
    assert_eq!(format!("{:?}", right), "Right");
    assert_eq!(format!("{:?}", middle), "Middle");
}

#[test]
fn test_mouse_button_equality() {
    assert_eq!(MouseButton::Left, MouseButton::Left);
    assert_ne!(MouseButton::Left, MouseButton::Right);
    assert_ne!(MouseButton::Right, MouseButton::Middle);
}

#[test]
fn test_to_network_mouse_move_debug() {
    let msg = ToNetwork::MouseMove { x: 100, y: 200 };
    let debug = msg.debug_text();
    assert!(debug.contains("MouseMove"));
    assert!(debug.contains("100"));
    assert!(debug.contains("200"));
}

#[test]
fn test_to_network_mouse_button_debug() {
    let msg = ToNetwork::MouseButton {
        button: MouseButton::Left,
        pressed: true,
        x: 50,
        y: 75,
    };
    let debug = msg.debug_text();
    assert!(debug.contains("MouseButton"));
    assert!(debug.contains("Left"));
    assert!(debug.contains("true"));
}

#[test]
fn test_to_network_mouse_wheel_debug() {
    let msg = ToNetwork::MouseWheel {
        horizontal: false,
        delta: -120,
        x: 100,
        y: 100,
    };
    let debug = msg.debug_text();
    assert!(debug.contains("MouseWheel"));
    assert!(debug.contains("-120"));
}

#[test]
fn test_rdp_monitor_layout_new() {
    let layout = RdpMonitorLayout {
        id: 1,
        width: 1920,
        height: 1080,
        x: 0,
        y: 0,
        is_primary: true,
    };
    assert_eq!(layout.id, 1);
    assert_eq!(layout.width, 1920);
    assert_eq!(layout.height, 1080);
    assert_eq!(layout.x, 0);
    assert_eq!(layout.y, 0);
    assert!(layout.is_primary);
}

#[test]
fn test_rdp_monitor_layout_secondary() {
    let layout = RdpMonitorLayout {
        id: 2,
        width: 2560,
        height: 1440,
        x: 1920,
        y: -180, // Negative Y for vertical offset
        is_primary: false,
    };
    assert_eq!(layout.id, 2);
    assert_eq!(layout.x, 1920);
    assert_eq!(layout.y, -180);
    assert!(!layout.is_primary);
}

#[test]
fn test_to_network_update_monitor_layout() {
    let monitors = vec![
        RdpMonitorLayout {
            id: 1,
            width: 1920,
            height: 1080,
            x: 0,
            y: 0,
            is_primary: true,
        },
        RdpMonitorLayout {
            id: 2,
            width: 1920,
            height: 1080,
            x: 1920,
            y: 0,
            is_primary: false,
        },
    ];
    let msg = ToNetwork::UpdateMonitorLayout { monitors };
    let debug = msg.debug_text();
    assert!(debug.contains("UpdateMonitorLayout"));
}

#[test]
fn test_parse_username_empty() {
    let (user, domain) = ConnectionConfig::parse_username("");
    assert_eq!(user, "");
    assert!(domain.is_none());
}

#[test]
fn test_parse_username_double_backslash() {
    // Double backslash edge case - split_once takes first backslash only
    // This results in domain="DOMAIN", user="\\user" which is technically
    // what the user typed after the first backslash
    let (user, domain) = ConnectionConfig::parse_username("DOMAIN\\\\user");
    assert_eq!(domain, Some("DOMAIN".to_string()));
    assert_eq!(user, "\\user"); // Preserves the second backslash
}

#[test]
fn test_parse_username_at_in_nt_style() {
    // NT-style takes precedence over UPN - backslash checked first
    let (user, domain) = ConnectionConfig::parse_username("DOMAIN\\user@email.com");
    assert_eq!(domain, Some("DOMAIN".to_string()));
    assert_eq!(user, "user@email.com");
}

#[test]
fn test_certificate_info_new() {
    let cert =
        CertificateInfo::new("SHA256:AB:CD:EF", "Self-signed", "2024-01-01", "2025-01-01");
    assert_eq!(cert.fingerprint, "SHA256:AB:CD:EF");
    assert_eq!(cert.issuer, "Self-signed");
    assert!(cert.common_name.is_none());
    assert!(cert.organization.is_none());
}

#[test]
fn test_certificate_info_builder() {
    let cert = CertificateInfo::new("FP", "Issuer", "2024", "2025")
        .with_common_name("server.example.com")
        .with_organization("Example Corp");
    assert_eq!(cert.common_name, Some("server.example.com".to_string()));
    assert_eq!(cert.organization, Some("Example Corp".to_string()));
}

#[test]
fn test_certificate_info_display() {
    let cert = CertificateInfo::new("SHA256:AB:CD", "CA", "2024-01-01", "2025-12-31")
        .with_common_name("example.com");
    let display = cert.display();
    assert!(display.contains("SHA256:AB:CD"));
    assert!(display.contains("CN=example.com"));
    assert!(display.contains("CA"));
    assert!(display.contains("2024-01-01"));
    assert!(display.contains("2025-12-31"));
}

#[test]
fn test_connection_error_display_certificate_rejected() {
    let err = ConnectionError::CertificateRejected("user declined".to_string());
    let msg = err.message();
    assert!(msg.contains("Certificate rejected"));
    assert!(msg.contains("user declined"));
}

#[test]
fn test_certificate_info_display_long_fingerprint() {
    // SHA-256 fingerprint with colons = 95 characters
    let long_fp = "SHA256:AB:CD:EF:12:34:56:78:90:AB:CD:EF:12:34:56:78:90:AB:CD:EF:12:34:56:78:90:AB:CD:EF:12:34:56:78";
    let cert = CertificateInfo::new(long_fp, "CA", "2024", "2025");
    let display = cert.display();
    // Should be truncated with "..."
    assert!(display.contains("..."));
    // Should not contain the full fingerprint
    assert!(!display.contains(long_fp));
    // Should contain the beginning
    assert!(display.contains("SHA256:AB:CD:EF"));
}

#[test]
fn test_certificate_info_partial_eq() {
    let cert1 = CertificateInfo::new("FP1", "Issuer", "2024", "2025");
    let cert2 = CertificateInfo::new("FP1", "Issuer", "2024", "2025");
    let cert3 = CertificateInfo::new("FP2", "Issuer", "2024", "2025");
    assert_eq!(cert1, cert2);
    assert_ne!(cert1, cert3);
}

#[test]
fn test_rdp_monitor_info_new() {
    let monitor = RdpMonitorInfo::new(0, 0, 1920, 1080, true);
    assert_eq!(monitor.x, 0);
    assert_eq!(monitor.y, 0);
    assert_eq!(monitor.width, 1920);
    assert_eq!(monitor.height, 1080);
    assert!(monitor.is_primary);
    assert_eq!(monitor.scale_percent, 100);
    assert!(monitor.physical_width_mm.is_none());
    assert!(monitor.physical_height_mm.is_none());
}

#[test]
fn test_rdp_monitor_info_secondary() {
    let monitor = RdpMonitorInfo::new(1920, 0, 1920, 1080, false);
    assert_eq!(monitor.x, 1920);
    assert_eq!(monitor.y, 0);
    assert!(!monitor.is_primary);
}

#[test]
fn test_rdp_monitor_info_with_scale() {
    let monitor = RdpMonitorInfo::new(0, 0, 3840, 2160, true).with_scale(200);
    assert_eq!(monitor.scale_percent, 200);
}

#[test]
fn test_rdp_monitor_info_scale_clamped() {
    // Scale should be clamped to 100-500
    let monitor_low = RdpMonitorInfo::new(0, 0, 1920, 1080, true).with_scale(50);
    let monitor_high = RdpMonitorInfo::new(0, 0, 1920, 1080, true).with_scale(600);
    assert_eq!(monitor_low.scale_percent, 100);
    assert_eq!(monitor_high.scale_percent, 500);
}

#[test]
fn test_rdp_monitor_info_with_physical_size() {
    let monitor = RdpMonitorInfo::new(0, 0, 1920, 1080, true).with_physical_size(527, 296);
    assert_eq!(monitor.physical_width_mm, Some(527));
    assert_eq!(monitor.physical_height_mm, Some(296));
}

#[test]
fn test_connection_config_with_monitor_layout() {
    let monitors = vec![
        RdpMonitorInfo::new(0, 0, 1920, 1080, true),
        RdpMonitorInfo::new(1920, 0, 1920, 1080, false),
    ];
    let config = ConnectionConfig::new("host", 3389).with_monitor_layout(monitors);
    assert!(config.monitor_layout.is_some());
    assert_eq!(config.monitor_layout.as_ref().unwrap().len(), 2);
}

#[test]
fn test_connection_config_debug_includes_monitor_layout() {
    let monitors = vec![RdpMonitorInfo::new(0, 0, 1920, 1080, true)];
    let config = ConnectionConfig::new("host", 3389)
        .with_monitor_layout(monitors)
        .with_password("secret");
    let debug = config.debug_text();
    assert!(debug.contains("monitor_layout"));
    assert!(debug.contains("1920"));
    // Password should still be redacted
    assert!(debug.contains("[REDACTED]"));
    assert!(!debug.contains("secret"));
}

#[test]
fn test_from_network_monitor_layout_accepted() {
    let msg = FromNetwork::MonitorLayoutAccepted {
        desktop_size: DesktopSize::new(3840, 1080),
    };
    let debug = format!("{:?}", msg);
    assert!(debug.contains("MonitorLayoutAccepted"));
    assert!(debug.contains("3840"));
}

#[test]
fn test_from_network_multi_monitor_not_supported() {
    let msg = FromNetwork::MultiMonitorNotSupported;
    let debug = format!("{:?}", msg);
    assert!(debug.contains("MultiMonitorNotSupported"));
}

#[test]
fn test_validate_monitor_layout_valid_single() {
    let monitors = vec![RdpMonitorInfo::new(0, 0, 1920, 1080, true)];
    assert!(validate_monitor_layout(&monitors).is_ok());
}

#[test]
fn test_validate_monitor_layout_valid_dual() {
    let monitors = vec![
        RdpMonitorInfo::new(0, 0, 1920, 1080, true),
        RdpMonitorInfo::new(1920, 0, 1920, 1080, false),
    ];
    assert!(validate_monitor_layout(&monitors).is_ok());
}

#[test]
fn test_validate_monitor_layout_empty() {
    let monitors: Vec<RdpMonitorInfo> = vec![];
    let result = validate_monitor_layout(&monitors);
    assert!(result.is_err());
    assert!(result.unwrap_err().contains("cannot be empty"));
}

#[test]
fn test_validate_monitor_layout_no_primary() {
    let monitors = vec![
        RdpMonitorInfo::new(0, 0, 1920, 1080, false),
        RdpMonitorInfo::new(1920, 0, 1920, 1080, false),
    ];
    let result = validate_monitor_layout(&monitors);
    assert!(result.is_err());
    assert!(result.unwrap_err().contains("found none"));
}

#[test]
fn test_validate_monitor_layout_two_primaries() {
    let monitors = vec![
        RdpMonitorInfo::new(0, 0, 1920, 1080, true),
        RdpMonitorInfo::new(1920, 0, 1920, 1080, true),
    ];
    let result = validate_monitor_layout(&monitors);
    assert!(result.is_err());
    assert!(result.unwrap_err().contains("found 2"));
}

#[test]
fn test_validate_monitor_layout_primary_not_at_origin() {
    let monitors = vec![RdpMonitorInfo::new(100, 50, 1920, 1080, true)];
    let result = validate_monitor_layout(&monitors);
    assert!(result.is_err());
    assert!(result.unwrap_err().contains("(0, 0)"));
}

#[test]
fn test_validate_monitor_layout_zero_dimensions() {
    let monitors = vec![RdpMonitorInfo::new(0, 0, 0, 1080, true)];
    let result = validate_monitor_layout(&monitors);
    assert!(result.is_err());
    assert!(result.unwrap_err().contains("invalid dimensions"));
}

#[test]
fn test_rdp_monitor_info_is_position_valid() {
    // Primary at origin is valid
    let primary_valid = RdpMonitorInfo::new(0, 0, 1920, 1080, true);
    assert!(primary_valid.is_position_valid());

    // Primary not at origin is invalid
    let primary_invalid = RdpMonitorInfo::new(100, 0, 1920, 1080, true);
    assert!(!primary_invalid.is_position_valid());

    // Secondary can be anywhere
    let secondary = RdpMonitorInfo::new(1920, -500, 2560, 1440, false);
    assert!(secondary.is_position_valid());
}

#[test]
fn test_to_network_request_clipboard_text() {
    let msg = ToNetwork::RequestClipboardText;
    let debug = msg.debug_text();
    assert!(debug.contains("RequestClipboardText"));
}

#[test]
fn test_from_network_clipboard_text_available() {
    let msg = FromNetwork::ClipboardTextAvailable {
        formats: vec![13, 1], // CF_UNICODETEXT = 13, CF_TEXT = 1
    };
    let debug = format!("{:?}", msg);
    assert!(debug.contains("ClipboardTextAvailable"));
    assert!(debug.contains("13"));
}

#[test]
fn test_from_network_clipboard_text() {
    let msg = FromNetwork::ClipboardText {
        text: "Hello, World!".to_string(),
    };
    let debug = format!("{:?}", msg);
    assert!(debug.contains("ClipboardText"));
    assert!(debug.contains("Hello, World!"));
}

#[test]
fn test_from_network_clipboard_text_unicode() {
    let msg = FromNetwork::ClipboardText {
        text: "Привет мир! 🎉".to_string(),
    };
    let debug = format!("{:?}", msg);
    assert!(debug.contains("ClipboardText"));
    assert!(debug.contains("Привет"));
}

#[test]
fn test_from_network_clipboard_request_failed() {
    let msg = FromNetwork::ClipboardRequestFailed;
    let debug = format!("{:?}", msg);
    assert!(debug.contains("ClipboardRequestFailed"));
}
