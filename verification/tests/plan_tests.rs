use lgtvctl::cli::{command_name, Command, MuteArgs, MuteState, VolumeAction, VolumeArgs};
use lgtvctl::plan::{
    config_report, dry_run_line, listen_address, mute_status_request, not_implemented, plan,
    reply_line, response_line, status_of, toggle_request, Action, VolumeStatus,
};
use lgtvctl::server::{endpoint_action, error_status, Endpoint};
use lgtvctl::webos::{Payload, Reply, RequestSpec};
use lgtvctl::{Config, LgtvctlError};

fn req(name: &str, uri: &str, payload: Option<Payload>) -> RequestSpec {
    RequestSpec { name: name.to_string(), uri: uri.to_string(), payload }
}

fn vol(action: VolumeAction) -> Command {
    Command::Volume(VolumeArgs { action })
}

fn mute(state: MuteState) -> Command {
    Command::Mute(MuteArgs { state })
}

#[test]
fn command_names() {
    assert_eq!(command_name(&Command::Status), "status");
    assert_eq!(command_name(&vol(VolumeAction::SetLevel { level: 15 })), "volume set 15");
    assert_eq!(command_name(&vol(VolumeAction::Up)), "volume up");
    assert_eq!(command_name(&mute(MuteState::Toggle)), "mute toggle");
    assert_eq!(command_name(&Command::Hdmi { number: 1 }), "hdmi 1");
    assert_eq!(command_name(&Command::App { name: "youtube".to_string() }), "app youtube");
    assert_eq!(command_name(&Command::Key { key: "HOME".to_string() }), "key HOME");
    assert_eq!(command_name(&Command::Serve), "serve");
}

#[test]
fn plans_of_commands() {
    assert_eq!(plan(&Command::Config), Action::ShowConfig);
    assert_eq!(plan(&Command::On), Action::Wake);
    assert_eq!(plan(&Command::Off), Action::Send(req("off", "ssap://system/turnOff", None)));
    assert_eq!(plan(&Command::Status), Action::Send(req("status", "ssap://audio/getVolume", None)));
    assert_eq!(plan(&vol(VolumeAction::Down)), Action::Send(req("volume_down", "ssap://audio/volumeDown", None)));
    assert_eq!(
        plan(&vol(VolumeAction::SetLevel { level: 15 })),
        Action::Send(req("volume_set", "ssap://audio/setVolume", Some(Payload::Volume(15))))
    );
    assert_eq!(
        plan(&mute(MuteState::On)),
        Action::Send(req("mute_on", "ssap://audio/setMute", Some(Payload::Mute(true))))
    );
    assert_eq!(plan(&mute(MuteState::Toggle)), Action::ToggleMute);
    assert_eq!(plan(&Command::Hdmi { number: 2 }), Action::Unsupported("hdmi".to_string()));
    assert_eq!(
        not_implemented("hdmi".to_string()),
        LgtvctlError::NotImplemented("hdmi".to_string())
    );
}

#[test]
fn toggling_sets_the_opposite() {
    assert_eq!(mute_status_request(), req("mute_status", "ssap://audio/getVolume", None));
    let on = VolumeStatus { mute: Some(true), muted: Some(false) };
    assert_eq!(toggle_request(&on), req("mute_toggle", "ssap://audio/setMute", Some(Payload::Mute(false))));
    let muted = VolumeStatus { mute: None, muted: Some(true) };
    assert_eq!(toggle_request(&muted).payload, Some(Payload::Mute(false)));
    let unknown = VolumeStatus { mute: None, muted: None };
    assert_eq!(toggle_request(&unknown).payload, Some(Payload::Mute(true)));
}

#[test]
fn response_lines() {
    assert_eq!(response_line("off", Some(true), "{}"), "off: returnValue=true");
    assert_eq!(response_line("status", None, "{\"volume\":5}"), "status: {\"volume\":5}");
}

#[test]
fn dry_run_matches_the_readme() {
    let mut c = Config::default();
    assert_eq!(dry_run_line(&Command::Status, &c, "x"), Err(LgtvctlError::MissingHost));
    c.host = Some("192.168.0.116".to_string());
    assert_eq!(
        dry_run_line(&Command::Status, &c, "x").unwrap(),
        "dry-run: host=192.168.0.116 port=3001 command=status"
    );
    assert_eq!(
        dry_run_line(&Command::On, &Config::default(), "x").unwrap(),
        "dry-run: mac=<not set> wol_broadcast=255.255.255.255 command=on"
    );
    assert_eq!(
        dry_run_line(&Command::Serve, &Config::default(), "0.0.0.0:8765").unwrap(),
        "dry-run: listen=0.0.0.0:8765 command=serve"
    );
    assert_eq!(listen_address(None), "127.0.0.1:8765");
    assert_eq!(listen_address(Some("0.0.0.0:1")), "0.0.0.0:1");
}

#[test]
fn config_report_hides_the_key() {
    let mut c = Config::default();
    c.client_key = Some("secret".to_string());
    let lines = config_report(&c, "127.0.0.1:8765");
    assert_eq!(
        lines,
        vec![
            "host = <not set>",
            "port = 3001",
            "client_key = <set>",
            "verify_certificate = false",
            "timeout_ms = 3000",
            "pair_timeout_ms = 60000",
            "mac = <not set>",
            "wol_broadcast = <not set>",
            "http_listen = 127.0.0.1:8765",
        ]
    );
    assert!(lines.iter().all(|l| !l.contains("secret")));
    c.client_key = Some("other".to_string());
    assert_eq!(config_report(&c, "127.0.0.1:8765"), lines);
    c.client_key = Some(String::new());
    assert_eq!(config_report(&c, "127.0.0.1:8765")[2], "client_key = <empty>");
}

#[test]
fn endpoints_follow_the_commands() {
    assert_eq!(endpoint_action(Endpoint::Off), Ok(plan(&Command::Off)));
    assert_eq!(endpoint_action(Endpoint::MuteToggle), Ok(Action::ToggleMute));
    assert_eq!(
        endpoint_action(Endpoint::VolumeSet(100)),
        Ok(plan(&vol(VolumeAction::SetLevel { level: 100 })))
    );
    assert_eq!(
        endpoint_action(Endpoint::VolumeSet(101)),
        Err("volume must be between 0 and 100".to_string())
    );
}

#[test]
fn error_statuses() {
    assert_eq!(error_status(&LgtvctlError::MissingHost), 400);
    assert_eq!(error_status(&LgtvctlError::MissingClientKeyConfig), 400);
    assert_eq!(error_status(&LgtvctlError::MissingMac), 400);
    assert_eq!(error_status(&LgtvctlError::InvalidMac("x".to_string())), 400);
    assert_eq!(error_status(&LgtvctlError::Timeout { operation: "status".to_string(), timeout_ms: 3000 }), 504);
    assert_eq!(error_status(&LgtvctlError::Protocol("x".to_string())), 500);
    assert_eq!(error_status(&LgtvctlError::MissingClientKey), 500);
    assert_eq!(error_status(&LgtvctlError::NotImplemented("app".to_string())), 500);
}

#[test]
fn replies_feed_the_status_and_the_line() {
    let reply = Reply { text: "{\"mute\":true}".to_string(), return_value: None, mute: Some(true), muted: None };
    assert_eq!(status_of(&reply), VolumeStatus { mute: Some(true), muted: None });
    assert_eq!(reply_line("status", &reply), "status: {\"mute\":true}");
    let done = Reply { text: "{\"returnValue\":true}".to_string(), return_value: Some(true), mute: None, muted: None };
    assert_eq!(reply_line("off", &done), "off: returnValue=true");
}
