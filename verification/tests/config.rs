//! The configuration and the settings that follow from it.
use yard::client::settings::{audio_parts, effective_settings, ConnectOptions};
use yard::config::{
    loaded_or_default, parse_failure, AudioConfig, ClipboardConfig, Config, ConfigParseError,
    ConfigRead, ConnectionDefaults, ConnectionProfile, PathVariables, DEFAULT_PORT,
};
use yard::error::Error;
use yard::paths::Platform;

fn no_variables() -> PathVariables {
    PathVariables {
        platform: Platform::Unix,
        xdg_config_home: None,
        appdata: None,
        home: None,
        userprofile: None,
    }
}

fn options() -> ConnectOptions {
    ConnectOptions::new("server.example.com")
}

#[test]
fn test_config_default() {
    let config = Config::default();
    assert_eq!(config.defaults.port, 3389);
    assert!(config.defaults.domain.is_none());
    assert!(config.defaults.username.is_none());
}

#[test]
fn test_config_path_uses_xdg() {
    let vars = PathVariables { xdg_config_home: Some("/xdg".to_string()), ..no_variables() };
    let path = Config::config_path(&vars);
    assert!(path.ends_with("config.toml"));
    assert_eq!(path, "/xdg/yard/config.toml");
}

#[test]
fn test_config_load_nonexistent_returns_default() {
    let config =
        Config::load_from_path("/nonexistent/path/config.toml", ConfigRead::Missing).unwrap();
    assert_eq!(config.defaults.port, DEFAULT_PORT);
}

#[test]
fn test_connection_defaults_default() {
    let defaults = ConnectionDefaults::default();
    assert_eq!(defaults.port, 3389);
    assert!(defaults.domain.is_none());
    assert!(defaults.username.is_none());
}

#[test]
fn test_effective_port_normal() {
    let defaults = ConnectionDefaults { port: 13389, ..Default::default() };
    assert_eq!(defaults.effective_port(), 13389);
}

#[test]
fn test_effective_port_zero_uses_default() {
    let defaults = ConnectionDefaults { port: 0, ..Default::default() };
    assert_eq!(defaults.effective_port(), DEFAULT_PORT);
}

#[test]
fn test_audio_config_default() {
    let config = AudioConfig::default();
    assert!(config.enabled);
    assert!(config.microphone);
}

#[test]
fn test_config_defaults_include_audio() {
    let config = Config::default();
    assert!(config.audio.enabled);
    assert!(config.audio.microphone);
}

#[test]
fn test_audio_flag_cli_overrides_config_enabled() {
    let config = Config::default();
    assert!(config.audio.enabled); // Config default

    let cli = ConnectOptions { no_audio: true, ..options() };
    assert!(!effective_settings(&config, &cli).audio); // CLI wins
}

#[test]
fn test_audio_flag_cli_overrides_config_microphone() {
    let config = Config::default();
    assert!(config.audio.microphone); // Config default

    let cli = ConnectOptions { no_microphone: true, ..options() };
    assert!(!effective_settings(&config, &cli).microphone); // CLI wins
}

#[test]
fn test_audio_flag_config_disables_when_cli_default() {
    let mut config = Config::default();
    config.audio.enabled = false;

    assert!(!effective_settings(&config, &options()).audio); // Config wins when CLI is default
}

#[test]
fn test_audio_both_enabled_when_no_flags_and_default_config() {
    let settings = effective_settings(&Config::default(), &options());
    assert!(settings.audio);
    assert!(settings.microphone);
}

#[test]
fn test_no_audio_flag_disables_both_output_and_input() {
    let cli = ConnectOptions { no_audio: true, ..options() };
    let settings = effective_settings(&Config::default(), &cli);
    assert!(!settings.audio);
    assert!(settings.microphone);

    let (audio_tx_exists, capture_rx_exists) = audio_parts(settings.audio, settings.microphone);
    assert!(!audio_tx_exists, "RDPSND should be disabled when --no-audio");
    assert!(!capture_rx_exists, "AUDIN should be disabled when --no-audio (no audio thread)");
}

#[test]
fn test_no_microphone_flag_disables_only_input() {
    let cli = ConnectOptions { no_microphone: true, ..options() };
    let settings = effective_settings(&Config::default(), &cli);
    assert!(settings.audio, "Audio output should still be enabled");
    assert!(!settings.microphone, "Microphone should be disabled");

    let (audio_tx_exists, capture_rx_exists) = audio_parts(settings.audio, settings.microphone);
    assert!(audio_tx_exists, "RDPSND should still be enabled");
    assert!(!capture_rx_exists, "AUDIN should be disabled");
}

#[test]
fn test_config_microphone_false_with_audio_enabled() {
    let mut config = Config::default();
    config.audio = AudioConfig { enabled: true, microphone: false };
    let settings = effective_settings(&config, &options());
    assert!(settings.audio, "Audio output should be enabled from config");
    assert!(!settings.microphone, "Microphone should be disabled from config");

    let (audio_tx_exists, capture_rx_exists) = audio_parts(settings.audio, settings.microphone);
    assert!(audio_tx_exists, "RDPSND should be enabled");
    assert!(!capture_rx_exists, "AUDIN should be disabled");
}

#[test]
fn test_clipboard_config_default() {
    let config = ClipboardConfig::default();
    assert!(config.enabled);
}

#[test]
fn test_config_defaults_include_clipboard() {
    let config = Config::default();
    assert!(config.clipboard.enabled);
}

#[test]
fn test_clipboard_flag_cli_overrides_config() {
    let config = Config::default();
    assert!(config.clipboard.enabled); // Config default

    let cli = ConnectOptions { no_clipboard: true, ..options() };
    assert!(!effective_settings(&config, &cli).clipboard); // CLI wins
}

#[test]
fn test_clipboard_config_disables_when_cli_default() {
    let mut config = Config::default();
    config.clipboard.enabled = false;
    assert!(!effective_settings(&config, &options()).clipboard); // Config wins when CLI is default
}

#[test]
fn config_directory_follows_the_variables() {
    let vars = PathVariables {
        appdata: Some("/w".to_string()),
        home: Some("/home/u".to_string()),
        ..no_variables()
    };
    assert_eq!(Config::config_path(&vars), "/home/u/.config/yard/config.toml");
    let vars = PathVariables {
        platform: Platform::Windows,
        appdata: Some("C:\\Users\\u\\AppData".to_string()),
        ..vars
    };
    assert_eq!(Config::config_path(&vars), "C:\\Users\\u\\AppData\\yard\\config.toml");
    let vars = PathVariables { appdata: Some("C:".to_string()), ..vars };
    assert_eq!(Config::config_dir(&vars), "C:yard");
    let vars = PathVariables { appdata: Some("C:\\".to_string()), ..vars };
    assert_eq!(Config::config_dir(&vars), "C:\\yard");
    let vars = PathVariables { home: Some("/home/u".to_string()), ..no_variables() };
    assert_eq!(Config::config_dir(&vars), "/home/u/.config/yard");
    let vars = PathVariables { userprofile: Some("/profile".to_string()), ..no_variables() };
    assert_eq!(Config::config_dir(&vars), "/profile/.config/yard");
    assert_eq!(Config::config_dir(&no_variables()), "./.config/yard");
}

#[test]
fn unreadable_file_is_an_error() {
    let read = ConfigRead::Unreadable("denied".to_string());
    let err = Config::load_from_path("/etc/yard.toml", read).unwrap_err();
    assert_eq!(
        err.message(),
        "Configuration error: Failed to read config file /etc/yard.toml: denied"
    );
}

#[test]
fn load_names_the_place_of_the_file() {
    let vars = PathVariables { home: Some("/home/u".to_string()), ..no_variables() };
    let err = Config::load(&vars, ConfigRead::Unreadable("denied".to_string())).unwrap_err();
    assert_eq!(
        err.message(),
        "Configuration error: Failed to read config file /home/u/.config/yard/config.toml: denied"
    );
    let config = Config::load(&vars, ConfigRead::Parsed(Config::default())).unwrap();
    assert_eq!(config.defaults.port, 3389);
}

#[test]
fn malformed_file_is_located() {
    let contents = "[defaults]\nport = x\n";
    let err = parse_failure(contents, "invalid".to_string(), Some(18));
    assert_eq!(err.message(), "Configuration error: invalid (line 2, column 8)");
    let err = parse_failure(contents, "invalid".to_string(), Some(0));
    assert_eq!(err.message(), "Configuration error: invalid (line 1, column 1)");
    let err = parse_failure(contents, "invalid".to_string(), Some(10));
    assert_eq!(err.message(), "Configuration error: invalid (line 1, column 11)");
    let err = parse_failure(contents, "invalid".to_string(), None);
    assert_eq!(err.message(), "Configuration error: invalid");
    let read = ConfigRead::Malformed {
        contents: contents.to_string(),
        message: "invalid".to_string(),
        span_start: Some(11),
    };
    let err = Config::load_from_path("config.toml", read).unwrap_err();
    assert_eq!(err.message(), "Configuration error: invalid (line 2, column 1)");
}

#[test]
fn column_counts_bytes() {
    let err = parse_failure("ä = x", "bad".to_string(), Some(5));
    assert_eq!(err.message(), "Configuration error: bad (line 1, column 6)");
}

#[test]
fn parse_error_without_column() {
    let err = ConfigParseError { message: "bad".to_string(), line: Some(3), column: None };
    assert_eq!(err.text(), "bad (line 3)");
}

#[test]
fn state_transition_error_text() {
    let err = Error::InvalidStateTransition { from: "A".to_string(), to: "B".to_string() };
    assert_eq!(err.message(), "Invalid state transition: A -> B");
}

#[test]
fn default_stands_in_for_an_error() {
    let config = loaded_or_default(Err(Error::Config("bad".to_string())));
    assert_eq!(config.defaults.port, 3389);
    assert!(!config.has_profile("work"));
    let mut other = Config::default();
    other.defaults.port = 1;
    assert_eq!(loaded_or_default(Ok(other)).defaults.port, 1);
}

#[test]
fn profile_of_a_name_can_be_replaced() {
    let mut config = Config::default();
    config.profiles.set("work", ConnectionProfile::new("one.example.com"));
    config.profiles.set("home", ConnectionProfile::new("two.example.com"));
    config.profiles.set("work", ConnectionProfile::new("three.example.com"));
    assert_eq!(config.get_profile("work").unwrap().host, "three.example.com");
    assert_eq!(config.get_profile("home").unwrap().host, "two.example.com");
    assert!(config.get_profile("other").is_none());
}
