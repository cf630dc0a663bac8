use lgtvctl::config::{
    config_candidates, config_load_path, config_save_path, default_config_path,
    default_pair_timeout_ms, default_port, default_timeout_ms,
};
use lgtvctl::{Config, LgtvctlError};
use std::time::Duration;

fn configured() -> Config {
    Config {
        host: Some("192.168.0.116".to_string()),
        port: 3001,
        client_key: Some("abc123".to_string()),
        verify_certificate: false,
        timeout_ms: 3000,
        pair_timeout_ms: 60000,
        mac: Some("AA:BB:CC:DD:EE:FF".to_string()),
        wol_broadcast: Some("192.168.0.255".to_string()),
    }
}

#[test]
fn defaults_match_the_readme() {
    let c = Config::default();
    assert_eq!(c.host, None);
    assert_eq!(c.port, 3001);
    assert_eq!(c.client_key, None);
    assert!(!c.verify_certificate);
    assert_eq!(c.timeout_ms, 3000);
    assert_eq!(c.pair_timeout_ms, 60000);
    assert_eq!(c.mac, None);
    assert_eq!(c.wol_broadcast, None);
    assert_eq!(default_port(), 3001);
    assert_eq!(default_timeout_ms(), 3000);
    assert_eq!(default_pair_timeout_ms(), 60000);
}

#[test]
fn overrides_replace_only_what_is_given() {
    let mut c = configured();
    c.apply_overrides(Some("10.0.0.2".to_string()), None, None, Some("10.0.0.255".to_string()));
    assert_eq!(c.host.as_deref(), Some("10.0.0.2"));
    assert_eq!(c.port, 3001);
    assert_eq!(c.mac.as_deref(), Some("AA:BB:CC:DD:EE:FF"));
    assert_eq!(c.wol_broadcast.as_deref(), Some("10.0.0.255"));
    c.apply_overrides(None, Some(3000), Some("00:11:22:33:44:55".to_string()), None);
    assert_eq!(c.port, 3000);
    assert_eq!(c.mac.as_deref(), Some("00:11:22:33:44:55"));
    assert_eq!(c.host.as_deref(), Some("10.0.0.2"));
}

#[test]
fn overrides_without_values_change_nothing() {
    let mut c = configured();
    c.apply_overrides(None, None, None, None);
    assert_eq!(c.host.as_deref(), Some("192.168.0.116"));
    assert_eq!(c.port, 3001);
    assert_eq!(c.mac.as_deref(), Some("AA:BB:CC:DD:EE:FF"));
    assert_eq!(c.wol_broadcast.as_deref(), Some("192.168.0.255"));
}

#[test]
fn require_host_reports_missing_host() {
    assert_eq!(configured().require_host(), Ok("192.168.0.116"));
    assert_eq!(Config::default().require_host(), Err(LgtvctlError::MissingHost));
}

#[test]
fn blank_client_key_counts_as_missing() {
    assert_eq!(configured().require_client_key(), Ok("abc123"));
    let mut c = configured();
    c.client_key = Some(" \t\n".to_string());
    assert_eq!(c.require_client_key(), Err(LgtvctlError::MissingClientKeyConfig));
    c.client_key = Some(String::new());
    assert_eq!(c.require_client_key(), Err(LgtvctlError::MissingClientKeyConfig));
    c.client_key = None;
    assert_eq!(c.require_client_key(), Err(LgtvctlError::MissingClientKeyConfig));
    c.client_key = Some("  key  ".to_string());
    assert_eq!(c.require_client_key(), Ok("  key  "));
}

#[test]
fn blank_mac_counts_as_missing() {
    let mut c = configured();
    assert_eq!(c.require_mac(), Ok("AA:BB:CC:DD:EE:FF"));
    c.mac = Some("\u{3000} ".to_string());
    assert_eq!(c.require_mac(), Err(LgtvctlError::MissingMac));
    c.mac = None;
    assert_eq!(c.require_mac(), Err(LgtvctlError::MissingMac));
}

#[test]
fn timeouts_are_milliseconds() {
    let c = Config::default();
    assert_eq!(c.timeout(), Duration::from_millis(3000));
    assert_eq!(c.pair_timeout(), Duration::from_millis(60000));
    let mut c = configured();
    c.timeout_ms = 1234;
    assert_eq!(c.timeout(), Duration::from_millis(1234));
}

#[test]
fn with_client_key_keeps_everything_else() {
    let c = configured();
    let saved = c.with_client_key("new-key".to_string());
    assert_eq!(saved.client_key.as_deref(), Some("new-key"));
    assert_eq!(saved.host, c.host);
    assert_eq!(saved.port, c.port);
    assert_eq!(saved.mac, c.mac);
    assert_eq!(saved.wol_broadcast, c.wol_broadcast);
    assert_eq!(saved.timeout_ms, c.timeout_ms);
    assert_eq!(saved.pair_timeout_ms, c.pair_timeout_ms);
    assert_eq!(saved.verify_certificate, c.verify_certificate);
}

#[test]
fn candidates_in_search_order() {
    assert_eq!(
        config_candidates(),
        vec!["./lgtvctl.toml", "./config/lgtvctl.toml", "/etc/lgtvctl.toml"]
    );
}

#[test]
fn load_path_follows_the_search_order() {
    let none = [false, false, false];
    assert_eq!(
        config_load_path(Some("my.toml"), Some("env.toml"), true, &[true, true, true]).as_deref(),
        Some("my.toml")
    );
    assert_eq!(
        config_load_path(None, Some("env.toml"), true, &[true, true, true]).as_deref(),
        Some("env.toml")
    );
    assert_eq!(
        config_load_path(None, Some("env.toml"), false, &[false, true, true]).as_deref(),
        Some("./config/lgtvctl.toml")
    );
    assert_eq!(
        config_load_path(None, None, false, &[false, false, true]).as_deref(),
        Some("/etc/lgtvctl.toml")
    );
    assert_eq!(config_load_path(None, None, false, &none), None);
    assert_eq!(default_config_path(Some("env.toml"), false, &none), None);
    assert_eq!(
        default_config_path(None, false, &[true, false, true]).as_deref(),
        Some("./lgtvctl.toml")
    );
}

#[test]
fn save_path_prefers_the_file_read() {
    assert_eq!(config_save_path(Some("my.toml"), Some("env.toml"), &[true, true, true]), "my.toml");
    assert_eq!(config_save_path(None, Some("env.toml"), &[true, true, true]), "env.toml");
    assert_eq!(config_save_path(None, None, &[false, true, false]), "./config/lgtvctl.toml");
    assert_eq!(config_save_path(None, None, &[false, false, false]), "./lgtvctl.toml");
    let exists = [false, false, true];
    let loaded = config_load_path(None, None, false, &exists).unwrap();
    assert_eq!(config_save_path(None, None, &exists), loaded);
}
