//! What each command does, and the lines the tool prints about it.

use vstd::prelude::*;

use crate::cli::{command_name, command_name_text, Command, MuteState, VolumeAction};
use crate::config::Config;
use crate::error::LgtvctlError;
use crate::text::{decimal, joined, owned, push_decimal};
use crate::webos::{Payload, Reply, RequestSpec, RequestView};

verus! {

/// The address the HTTP API listens on when none is given.
pub const DEFAULT_HTTP_LISTEN: &'static str = "127.0.0.1:8765";

/// What running a command amounts to.
#[derive(Debug, PartialEq, Eq)]
pub enum Action {
    /// Print the configuration.
    ShowConfig,
    /// Pair with the TV and save the client key.
    Pair,
    /// Send a Wake-on-LAN packet.
    Wake,
    /// Connect to the TV and close the connection.
    Probe,
    /// Run the HTTP API.
    Serve,
    /// Send one authenticated request and report its reply.
    Send(RequestSpec),
    /// Read the mute state, then set the opposite.
    ToggleMute,
    /// A command that is not carried out yet, by name.
    Unsupported(String),
}

/// An action as data.
pub enum ActionView {
    ShowConfig,
    Pair,
    Wake,
    Probe,
    Serve,
    Send(RequestView),
    ToggleMute,
    Unsupported(Seq<char>),
}

impl View for Action {
    type V = ActionView;

    open spec fn view(&self) -> ActionView {
        match self {
            Action::ShowConfig => ActionView::ShowConfig,
            Action::Pair => ActionView::Pair,
            Action::Wake => ActionView::Wake,
            Action::Probe => ActionView::Probe,
            Action::Serve => ActionView::Serve,
            Action::Send(r) => ActionView::Send(r@),
            Action::ToggleMute => ActionView::ToggleMute,
            Action::Unsupported(n) => ActionView::Unsupported(n@),
        }
    }
}

/// A request with the given name, URI and parameters.
pub open spec fn request_of(name: Seq<char>, uri: Seq<char>, payload: Option<Payload>) -> RequestView {
    RequestView { name, uri, payload }
}

/// The request a volume command sends.
pub open spec fn volume_request(action: VolumeAction) -> RequestView {
    match action {
        VolumeAction::Up => request_of("volume_up"@, "ssap://audio/volumeUp"@, None),
        VolumeAction::Down => request_of("volume_down"@, "ssap://audio/volumeDown"@, None),
        VolumeAction::SetLevel { level } => request_of(
            "volume_set"@,
            "ssap://audio/setVolume"@,
            Some(Payload::Volume(level)),
        ),
    }
}

/// What each command does.
pub open spec fn plan_spec(c: Command) -> ActionView {
    match c {
        Command::Config => ActionView::ShowConfig,
        Command::Pair => ActionView::Pair,
        Command::On => ActionView::Wake,
        Command::Off => ActionView::Send(request_of("off"@, "ssap://system/turnOff"@, None)),
        Command::Probe => ActionView::Probe,
        Command::Status => ActionView::Send(request_of("status"@, "ssap://audio/getVolume"@, None)),
        Command::Volume(args) => ActionView::Send(volume_request(args.action)),
        Command::Mute(args) => match args.state {
            MuteState::On => ActionView::Send(
                request_of("mute_on"@, "ssap://audio/setMute"@, Some(Payload::Mute(true))),
            ),
            MuteState::Off => ActionView::Send(
                request_of("mute_off"@, "ssap://audio/setMute"@, Some(Payload::Mute(false))),
            ),
            MuteState::Toggle => ActionView::ToggleMute,
        },
        Command::Hdmi { .. } => ActionView::Unsupported("hdmi"@),
        Command::App { .. } => ActionView::Unsupported("app"@),
        Command::Key { .. } => ActionView::Unsupported("key"@),
        Command::Serve => ActionView::Serve,
    }
}

/// A request with the given name, URI and parameters.
pub fn request(name: &str, uri: &str, payload: Option<Payload>) -> (r: RequestSpec)
    ensures
        r@ == request_of(name@, uri@, payload),
{
    RequestSpec { name: owned(name), uri: owned(uri), payload }
}

/// The request a volume command sends.
pub fn volume_request_for(action: VolumeAction) -> (r: RequestSpec)
    ensures
        r@ == volume_request(action),
{
    match action {
        VolumeAction::Up => request("volume_up", "ssap://audio/volumeUp", None),
        VolumeAction::Down => request("volume_down", "ssap://audio/volumeDown", None),
        VolumeAction::SetLevel { level } => request(
            "volume_set",
            "ssap://audio/setVolume",
            Some(Payload::Volume(level)),
        ),
    }
}

/// What running a command amounts to (see `plan_spec`).
pub fn plan(command: &Command) -> (a: Action)
    ensures
        a@ == plan_spec(*command),
{
    match command {
        Command::Config => Action::ShowConfig,
        Command::Pair => Action::Pair,
        Command::On => Action::Wake,
        Command::Off => Action::Send(request("off", "ssap://system/turnOff", None)),
        Command::Probe => Action::Probe,
        Command::Status => Action::Send(request("status", "ssap://audio/getVolume", None)),
        Command::Volume(args) => Action::Send(volume_request_for(args.action)),
        Command::Mute(args) => match args.state {
            MuteState::On => Action::Send(
                request("mute_on", "ssap://audio/setMute", Some(Payload::Mute(true))),
            ),
            MuteState::Off => Action::Send(
                request("mute_off", "ssap://audio/setMute", Some(Payload::Mute(false))),
            ),
            MuteState::Toggle => Action::ToggleMute,
        },
        Command::Hdmi { .. } => Action::Unsupported(owned("hdmi")),
        Command::App { .. } => Action::Unsupported(owned("app")),
        Command::Key { .. } => Action::Unsupported(owned("key")),
        Command::Serve => Action::Serve,
    }
}

/// The error of a command that is not carried out yet.
pub fn not_implemented(name: String) -> (e: LgtvctlError)
    ensures
        e == LgtvctlError::NotImplemented(name),
{
    LgtvctlError::NotImplemented(name)
}

/// What the TV reports of its mute state: `mute` and `muted`, where present
/// as booleans.
#[derive(Debug, Clone, Copy, PartialEq, Eq)]
pub struct VolumeStatus {
    pub mute: Option<bool>,
    pub muted: Option<bool>,
}

/// The mute state a reply's payload reports.
pub fn status_of(reply: &Reply) -> (s: VolumeStatus)
    ensures
        s == (VolumeStatus { mute: reply.mute, muted: reply.muted }),
{
    VolumeStatus { mute: reply.mute, muted: reply.muted }
}

/// The mute state a status reports: `mute`, else `muted`, else not muted.
pub open spec fn current_mute(s: VolumeStatus) -> bool {
    match s.mute {
        Some(b) => b,
        None => match s.muted {
            Some(b) => b,
            None => false,
        },
    }
}

/// The mute state toggling sets.
pub open spec fn toggled_state(s: VolumeStatus) -> bool {
    !current_mute(s)
}

/// The request toggling sends for a reported status.
pub open spec fn toggle_request_view(s: VolumeStatus) -> RequestView {
    request_of("mute_toggle"@, "ssap://audio/setMute"@, Some(Payload::Mute(toggled_state(s))))
}

/// The request that reads the mute state before toggling it.
pub fn mute_status_request() -> (r: RequestSpec)
    ensures
        r@ == request_of("mute_status"@, "ssap://audio/getVolume"@, None),
{
    request("mute_status", "ssap://audio/getVolume", None)
}

/// The mute state toggling sets: the opposite of the current one.
pub fn toggled_mute(status: &VolumeStatus) -> (on: bool)
    ensures
        on == toggled_state(*status),
{
    let current = match status.mute {
        Some(b) => b,
        None => match status.muted {
            Some(b) => b,
            None => false,
        },
    };
    !current
}

/// The request that sets the opposite of the reported mute state.
pub fn toggle_request(status: &VolumeStatus) -> (r: RequestSpec)
    ensures
        r@ == toggle_request_view(*status),
{
    request("mute_toggle", "ssap://audio/setMute", Some(Payload::Mute(toggled_mute(status))))
}

/// `true` or `false`.
pub open spec fn bool_text(b: bool) -> Seq<char> {
    if b {
        "true"@
    } else {
        "false"@
    }
}

fn push_bool(s: &mut String, b: bool)
    ensures
        final(s)@ == old(s)@ + bool_text(b),
{
    if b {
        s.append("true");
    } else {
        s.append("false");
    }
}

/// The line printed for a reply: `<command>: returnValue=<bool>` when the
/// reply has a boolean `returnValue`, else `<command>: <reply>`.
pub open spec fn response_text(command: Seq<char>, return_value: Option<bool>, rendered: Seq<char>) -> Seq<char> {
    match return_value {
        Some(b) => command + ": returnValue="@ + bool_text(b),
        None => command + ": "@ + rendered,
    }
}

/// The line printed for a reply (see `response_text`); `rendered` is the
/// reply written as JSON.
pub fn response_line(command: &str, return_value: Option<bool>, rendered: &str) -> (s: String)
    ensures
        s@ == response_text(command@, return_value, rendered@),
{
    match return_value {
        Some(b) => {
            let mut s = joined(command, ": returnValue=");
            push_bool(&mut s, b);
            s
        },
        None => {
            let mut s = joined(command, ": ");
            s.append(rendered);
            s
        },
    }
}

/// The line printed for the reply to a request (see `response_text`).
pub fn reply_line(command: &str, reply: &Reply) -> (s: String)
    ensures
        s@ == response_text(command@, reply.return_value, reply.text@),
{
    response_line(command, reply.return_value, reply.text.as_str())
}

/// The text of an optional setting, or a placeholder.
pub open spec fn or_text(o: Option<String>, placeholder: Seq<char>) -> Seq<char> {
    match o {
        Some(s) => s@,
        None => placeholder,
    }
}

fn push_or(s: &mut String, o: &Option<String>, placeholder: &str)
    ensures
        final(s)@ == old(s)@ + or_text(*o, placeholder@),
{
    match o {
        Some(v) => s.append(v.as_str()),
        None => s.append(placeholder),
    }
}

/// The address the HTTP API listens on: the one given, else
/// `127.0.0.1:8765`.
pub fn listen_address(listen: Option<&str>) -> (s: String)
    ensures
        s@ == match listen {
            Some(l) => l@,
            None => "127.0.0.1:8765"@,
        },
{
    match listen {
        Some(l) => owned(l),
        None => owned(DEFAULT_HTTP_LISTEN),
    }
}

/// What `--dry-run` prints for a command.
pub open spec fn dry_run_text(c: Command, config: Config, listen: Seq<char>) -> Result<Seq<char>, LgtvctlError> {
    match c {
        Command::On => Ok(
            "dry-run: mac="@ + or_text(config.mac, "<not set>"@) + " wol_broadcast="@ + or_text(
                config.wol_broadcast,
                "255.255.255.255"@,
            ) + " command=on"@,
        ),
        Command::Serve => Ok("dry-run: listen="@ + listen + " command=serve"@),
        _ => match config.host {
            Some(h) => Ok(
                "dry-run: host="@ + h@ + " port="@ + decimal(config.port as nat) + " command="@
                    + command_name_text(c),
            ),
            None => Err(LgtvctlError::MissingHost),
        },
    }
}

/// The line `--dry-run` prints for a command (see `dry_run_text`): for `on`
/// the MAC address and broadcast address, for `serve` the listen address,
/// for the others the TV's host and port, which must be configured.
pub fn dry_run_line(command: &Command, config: &Config, listen: &str) -> (r: Result<String, LgtvctlError>)
    ensures
        match dry_run_text(*command, *config, listen@) {
            Ok(t) => r matches Ok(s) && s@ == t,
            Err(e) => r == Err::<String, LgtvctlError>(e),
        },
{
    match command {
        Command::On => {
            let mut s = owned("dry-run: mac=");
            push_or(&mut s, &config.mac, "<not set>");
            s.append(" wol_broadcast=");
            push_or(&mut s, &config.wol_broadcast, "255.255.255.255");
            s.append(" command=on");
            Ok(s)
        },
        Command::Serve => {
            let mut s = joined("dry-run: listen=", listen);
            s.append(" command=serve");
            Ok(s)
        },
        _ => {
            let host = config.require_host()?;
            let mut s = joined("dry-run: host=", host);
            s.append(" port=");
            push_decimal(&mut s, config.port as u64);
            s.append(" command=");
            let name = command_name(command);
            s.append(name.as_str());
            Ok(s)
        },
    }
}

/// Whether the configuration holds a non-empty client key.
pub open spec fn has_client_key(c: Config) -> bool {
    c.client_key is Some && c.client_key->0@.len() > 0
}

/// The lines `config` prints: every setting, the client key only as `<set>`
/// or `<empty>`.
pub open spec fn config_report_text(c: Config, listen: Seq<char>) -> Seq<Seq<char>> {
    seq![
        "host = "@ + or_text(c.host, "<not set>"@),
        "port = "@ + decimal(c.port as nat),
        "client_key = "@ + if has_client_key(c) {
            "<set>"@
        } else {
            "<empty>"@
        },
        "verify_certificate = "@ + bool_text(c.verify_certificate),
        "timeout_ms = "@ + decimal(c.timeout_ms as nat),
        "pair_timeout_ms = "@ + decimal(c.pair_timeout_ms as nat),
        "mac = "@ + or_text(c.mac, "<not set>"@),
        "wol_broadcast = "@ + or_text(c.wol_broadcast, "<not set>"@),
        "http_listen = "@ + listen,
    ]
}

/// The views of a list of strings.
pub open spec fn line_texts(v: Seq<String>) -> Seq<Seq<char>> {
    v.map_values(|s: String| s@)
}

fn push_line(v: &mut Vec<String>, s: String)
    ensures
        line_texts(final(v)@) == line_texts(old(v)@).push(s@),
{
    let ghost before = v@;
    let ghost t = s@;
    v.push(s);
    assert(line_texts(v@) =~= line_texts(before).push(t));
}

/// The lines `config` prints (see `config_report_text`).
pub fn config_report(config: &Config, listen: &str) -> (lines: Vec<String>)
    ensures
        line_texts(lines@) == config_report_text(*config, listen@),
{
    let mut lines: Vec<String> = Vec::new();
    assert(line_texts(lines@) =~= Seq::<Seq<char>>::empty());

    let mut s = owned("host = ");
    push_or(&mut s, &config.host, "<not set>");
    push_line(&mut lines, s);

    let mut s = owned("port = ");
    push_decimal(&mut s, config.port as u64);
    push_line(&mut lines, s);

    let key_set = match &config.client_key {
        Some(k) => k.unicode_len() > 0,
        None => false,
    };
    let mut s = owned("client_key = ");
    if key_set {
        s.append("<set>");
    } else {
        s.append("<empty>");
    }
    push_line(&mut lines, s);

    let mut s = owned("verify_certificate = ");
    push_bool(&mut s, config.verify_certificate);
    push_line(&mut lines, s);

    let mut s = owned("timeout_ms = ");
    push_decimal(&mut s, config.timeout_ms);
    push_line(&mut lines, s);

    let mut s = owned("pair_timeout_ms = ");
    push_decimal(&mut s, config.pair_timeout_ms);
    push_line(&mut lines, s);

    let mut s = owned("mac = ");
    push_or(&mut s, &config.mac, "<not set>");
    push_line(&mut lines, s);

    let mut s = owned("wol_broadcast = ");
    push_or(&mut s, &config.wol_broadcast, "<not set>");
    push_line(&mut lines, s);

    let s = joined("http_listen = ", listen);
    push_line(&mut lines, s);

    assert(line_texts(lines@) =~= config_report_text(*config, listen@));
    lines
}

/// The configuration report never shows the client key: two configurations
/// that differ only in their client keys, both set or both unset, print the
/// same lines.
pub proof fn report_hides_client_key(c: Config, key: Option<String>, listen: Seq<char>)
    requires
        has_client_key(c) == has_client_key(Config { client_key: key, ..c }),
    ensures
        config_report_text(c, listen) == config_report_text(Config { client_key: key, ..c }, listen),
{
}

/// Toggling mute sets the opposite of what the TV reports: the boolean in
/// `mute` when there is one, else the one in `muted`, else "not muted". The
/// request is `mute_toggle` to `ssap://audio/setMute` carrying that opposite,
/// and a TV that then reports the new state toggles back to the old one.
pub proof fn toggling_inverts_the_reported_state(s: VolumeStatus)
    ensures
        s.mute matches Some(b) ==> toggled_state(s) == !b,
        s.mute is None ==> (s.muted matches Some(b) ==> toggled_state(s) == !b),
        s.mute is None && s.muted is None ==> toggled_state(s) == true,
        toggle_request_view(s).name == "mute_toggle"@,
        toggle_request_view(s).uri == "ssap://audio/setMute"@,
        toggle_request_view(s).payload == Some(Payload::Mute(toggled_state(s))),
        toggled_state(VolumeStatus { mute: Some(toggled_state(s)), muted: s.muted }) == !toggled_state(s),
{
}

/// Volume up and volume down call their own, different URIs, and setting
/// the volume sends the level asked for.
pub proof fn volume_requests_go_their_way(a: VolumeAction)
    ensures
        a is Up ==> volume_request(a) == request_of("volume_up"@, "ssap://audio/volumeUp"@, None),
        a is Down ==> volume_request(a) == request_of(
            "volume_down"@,
            "ssap://audio/volumeDown"@,
            None,
        ),
        a matches VolumeAction::SetLevel { level } ==> volume_request(a) == request_of(
            "volume_set"@,
            "ssap://audio/setVolume"@,
            Some(Payload::Volume(level)),
        ),
        volume_request(VolumeAction::Up).uri != volume_request(VolumeAction::Down).uri,
        volume_request(VolumeAction::Up).name != volume_request(VolumeAction::Down).name,
{
    reveal_strlit("ssap://audio/volumeUp");
    reveal_strlit("ssap://audio/volumeDown");
    reveal_strlit("volume_up");
    reveal_strlit("volume_down");
    assert("ssap://audio/volumeUp"@[19] != "ssap://audio/volumeDown"@[19]);
    assert("volume_up"@.len() != "volume_down"@.len());
}

/// Each command does what it names: `off` turns the TV off, `status` reads
/// the volume state, the volume commands change the volume as their action
/// says, `mute on` and `mute off` set mute to on and off, `mute` (toggle)
/// reads and flips it, `on` wakes the TV over the network, `hdmi`, `app` and
/// `key` are not carried out yet, and the rest do their own local work.
pub proof fn commands_do_what_they_name(c: Command)
    ensures
        c is Off ==> plan_spec(c) == ActionView::Send(
            request_of("off"@, "ssap://system/turnOff"@, None),
        ),
        c is Status ==> plan_spec(c) == ActionView::Send(
            request_of("status"@, "ssap://audio/getVolume"@, None),
        ),
        c matches Command::Volume(args) ==> plan_spec(c) == ActionView::Send(
            volume_request(args.action),
        ),
        c == Command::Mute(crate::cli::MuteArgs { state: MuteState::On }) ==> plan_spec(c)
            == ActionView::Send(
            request_of("mute_on"@, "ssap://audio/setMute"@, Some(Payload::Mute(true))),
        ),
        c == Command::Mute(crate::cli::MuteArgs { state: MuteState::Off }) ==> plan_spec(c)
            == ActionView::Send(
            request_of("mute_off"@, "ssap://audio/setMute"@, Some(Payload::Mute(false))),
        ),
        c == Command::Mute(crate::cli::MuteArgs { state: MuteState::Toggle }) ==> plan_spec(c)
            == ActionView::ToggleMute,
        c is On ==> plan_spec(c) == ActionView::Wake,
        c is Pair ==> plan_spec(c) == ActionView::Pair,
        c is Probe ==> plan_spec(c) == ActionView::Probe,
        c is Serve ==> plan_spec(c) == ActionView::Serve,
        c is Config ==> plan_spec(c) == ActionView::ShowConfig,
        c is Hdmi ==> plan_spec(c) == ActionView::Unsupported("hdmi"@),
        c is App ==> plan_spec(c) == ActionView::Unsupported("app"@),
        c is Key ==> plan_spec(c) == ActionView::Unsupported("key"@),
{
}

} // verus!
