//! Making a connection.
use yard::connection::certificate::format_fingerprint;
use yard::connection::rdp_config::build_rdp_config;
use yard::connection::{CERTIFICATE_DECISION_TIMEOUT_SECS, CONNECTION_TIMEOUT_SECS};
use yard::messages::ConnectionConfig;
use yard::monitors::{
    calculate_combined_desktop_size, DesktopSize, RdpMonitorInfo, DEFAULT_HEIGHT, DEFAULT_WIDTH,
};

#[test]
fn test_format_fingerprint_basic() {
    let bytes = [0xAB, 0xCD, 0xEF];
    let result = format_fingerprint(&bytes);
    assert_eq!(result, "SHA256:AB:CD:EF");
}

#[test]
fn test_format_fingerprint_sha256_length() {
    // SHA-256 produces 32 bytes
    let bytes: [u8; 32] = [
        0x01, 0x02, 0x03, 0x04, 0x05, 0x06, 0x07, 0x08, 0x09, 0x0A, 0x0B, 0x0C, 0x0D, 0x0E,
        0x0F, 0x10, 0x11, 0x12, 0x13, 0x14, 0x15, 0x16, 0x17, 0x18, 0x19, 0x1A, 0x1B, 0x1C,
        0x1D, 0x1E, 0x1F, 0x20,
    ];
    let result = format_fingerprint(&bytes);
    assert!(result.starts_with("SHA256:"));
    assert_eq!(result.matches(':').count(), 32); // 31 colons between bytes + 1 after SHA256
}

#[test]
fn test_format_fingerprint_lowercase_hex() {
    let bytes = [0x00, 0xFF, 0xAA];
    let result = format_fingerprint(&bytes);
    // Should be uppercase hex
    assert_eq!(result, "SHA256:00:FF:AA");
}

#[test]
fn test_format_fingerprint_empty() {
    let bytes: [u8; 0] = [];
    let result = format_fingerprint(&bytes);
    assert_eq!(result, "SHA256:");
}

#[test]
fn test_connection_timeout_constant() {
    assert_eq!(CONNECTION_TIMEOUT_SECS, 10);
}

#[test]
fn test_certificate_decision_timeout_constant() {
    assert_eq!(CERTIFICATE_DECISION_TIMEOUT_SECS, 60);
}

#[test]
fn test_desktop_size_new() {
    let size = DesktopSize::new(1920, 1080);
    assert_eq!(size.width, 1920);
    assert_eq!(size.height, 1080);
}

#[test]
fn test_build_rdp_config_basic() {
    let conn_config = ConnectionConfig::new("test.example.com", 3389)
        .with_username("testuser")
        .with_password("testpass");

    let rdp_config = build_rdp_config(&conn_config).ok().unwrap();

    assert_eq!(rdp_config.client_name, "YARD");
    assert!(rdp_config.settings.enable_tls);
    assert!(rdp_config.settings.enable_credssp);
    assert_eq!(rdp_config.settings.desktop_size.width, DEFAULT_WIDTH);
    assert_eq!(rdp_config.settings.desktop_size.height, DEFAULT_HEIGHT);
}

#[test]
fn test_build_rdp_config_with_domain() {
    let conn_config = ConnectionConfig::new("server", 3389)
        .with_username("user")
        .with_domain("CORP")
        .with_password("pass");

    let rdp_config = build_rdp_config(&conn_config).ok().unwrap();

    assert_eq!(rdp_config.domain, Some("CORP".to_string()));
}

#[test]
fn test_build_rdp_config_empty_credentials() {
    // Empty credentials should still build config (server validates)
    let conn_config = ConnectionConfig::new("server", 3389);

    let rdp_config = build_rdp_config(&conn_config).ok().unwrap();

    // Credentials default to empty strings
    assert!(rdp_config.username.is_empty());
    assert!(rdp_config.password.is_empty());
}

#[test]
fn test_build_rdp_config_bitmap_settings() {
    let conn_config = ConnectionConfig::new("server", 3389);
    let rdp_config = build_rdp_config(&conn_config).ok().unwrap();

    assert!(rdp_config.settings.lossy_compression);
    assert_eq!(rdp_config.settings.color_depth, 32);
}

#[test]
fn test_default_dimensions() {
    assert_eq!(DEFAULT_WIDTH, 1920);
    assert_eq!(DEFAULT_HEIGHT, 1080);
}

#[test]
fn test_calculate_combined_desktop_size_empty() {
    let size = calculate_combined_desktop_size(&[]);
    assert_eq!(size.width, DEFAULT_WIDTH);
    assert_eq!(size.height, DEFAULT_HEIGHT);
}

#[test]
fn test_calculate_combined_desktop_size_single_monitor() {
    let monitors = vec![RdpMonitorInfo::new(0, 0, 1920, 1080, true)];
    let size = calculate_combined_desktop_size(&monitors);
    assert_eq!(size.width, 1920);
    assert_eq!(size.height, 1080);
}

#[test]
fn test_calculate_combined_desktop_size_horizontal_dual() {
    let monitors = vec![
        RdpMonitorInfo::new(0, 0, 1920, 1080, true),
        RdpMonitorInfo::new(1920, 0, 1920, 1080, false),
    ];
    let size = calculate_combined_desktop_size(&monitors);
    assert_eq!(size.width, 3840);
    assert_eq!(size.height, 1080);
}

#[test]
fn test_calculate_combined_desktop_size_vertical_dual() {
    let monitors = vec![
        RdpMonitorInfo::new(0, 0, 1920, 1080, true),
        RdpMonitorInfo::new(0, 1080, 1920, 1080, false),
    ];
    let size = calculate_combined_desktop_size(&monitors);
    assert_eq!(size.width, 1920);
    assert_eq!(size.height, 2160);
}

#[test]
fn test_calculate_combined_desktop_size_staggered_above() {
    // Layout: primary at (0,0), secondary at (1920, -500) - above and to the right
    let monitors = vec![
        RdpMonitorInfo::new(0, 0, 1920, 1080, true),
        RdpMonitorInfo::new(1920, -500, 2560, 1440, false),
    ];
    let size = calculate_combined_desktop_size(&monitors);
    // Bounding box: left=0, top=-500, right=4480, bottom=1080
    // Width: 4480 - 0 = 4480
    // Height: 1080 - (-500) = 1580
    assert_eq!(size.width, 4480);
    assert_eq!(size.height, 1580);
}

#[test]
fn test_calculate_combined_desktop_size_negative_positions() {
    // Layout: secondary to the left of primary
    let monitors = vec![
        RdpMonitorInfo::new(0, 0, 1920, 1080, true),
        RdpMonitorInfo::new(-1920, 0, 1920, 1080, false),
    ];
    let size = calculate_combined_desktop_size(&monitors);
    // Bounding box: left=-1920, top=0, right=1920, bottom=1080
    // Width: 1920 - (-1920) = 3840
    // Height: 1080 - 0 = 1080
    assert_eq!(size.width, 3840);
    assert_eq!(size.height, 1080);
}

#[test]
fn test_calculate_combined_desktop_size_all_negative() {
    // Edge case: monitors positioned in negative quadrant
    let monitors = vec![
        RdpMonitorInfo::new(-1920, -1080, 1920, 1080, true),
        RdpMonitorInfo::new(-3840, -1080, 1920, 1080, false),
    ];
    let size = calculate_combined_desktop_size(&monitors);
    // Bounding box: left=-3840, top=-1080, right=0, bottom=0
    // Width: 0 - (-3840) = 3840
    // Height: 0 - (-1080) = 1080
    assert_eq!(size.width, 3840);
    assert_eq!(size.height, 1080);
}

#[test]
fn test_validate_monitor_layout_counts_primaries() {
    // Valid: one primary
    let monitors = [
        RdpMonitorInfo::new(0, 0, 1920, 1080, true),
        RdpMonitorInfo::new(1920, 0, 1920, 1080, false),
    ];
    let primary_count = monitors.iter().filter(|m| m.is_primary).count();
    assert_eq!(primary_count, 1);

    // Invalid: no primary
    let monitors_no_primary = [
        RdpMonitorInfo::new(0, 0, 1920, 1080, false),
        RdpMonitorInfo::new(1920, 0, 1920, 1080, false),
    ];
    let count = monitors_no_primary.iter().filter(|m| m.is_primary).count();
    assert_eq!(count, 0);

    // Invalid: two primaries
    let monitors_two_primary = [
        RdpMonitorInfo::new(0, 0, 1920, 1080, true),
        RdpMonitorInfo::new(1920, 0, 1920, 1080, true),
    ];
    let count = monitors_two_primary.iter().filter(|m| m.is_primary).count();
    assert_eq!(count, 2);
}

#[test]
fn test_validate_primary_monitor_position() {
    // Valid: primary at (0,0)
    let monitors = [RdpMonitorInfo::new(0, 0, 1920, 1080, true)];
    let primary = monitors.iter().find(|m| m.is_primary).unwrap();
    assert_eq!(primary.x, 0);
    assert_eq!(primary.y, 0);

    // Invalid: primary not at origin
    let monitors_bad = [RdpMonitorInfo::new(100, 50, 1920, 1080, true)];
    let primary = monitors_bad.iter().find(|m| m.is_primary).unwrap();
    assert_ne!(primary.x, 0); // This would trigger a warning in send_monitor_layout
}
