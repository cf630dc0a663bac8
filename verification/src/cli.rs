//! The command line: global options and the commands the tool understands.

use vstd::prelude::*;

use crate::text::{decimal, joined, owned, push_decimal};

verus! {

/// The parsed command line.
#[derive(Debug)]
pub struct Cli {
    /// Path to the configuration file (also from `LGTVCTL_CONFIG`).
    pub config: Option<String>,
    /// TV host/IP override.
    pub host: Option<String>,
    /// TV WebSocket port override.
    pub port: Option<u16>,
    /// MAC address override for Wake-on-LAN.
    pub mac: Option<String>,
    /// Wake-on-LAN broadcast address override.
    pub wol_broadcast: Option<String>,
    /// HTTP API bind address for `serve`.
    pub listen: Option<String>,
    /// Print what would be executed without connecting to the TV.
    pub dry_run: bool,
    /// The command to run.
    pub command: Command,
}

/// A command of the tool.
#[derive(Debug, PartialEq, Eq)]
pub enum Command {
    /// Pair this client with the TV and save a client key.
    Pair,
    /// Wake the TV using Wake-on-LAN.
    On,
    /// Turn the TV off.
    Off,
    /// Open a connection to the TV and close it.
    Probe,
    /// Read basic TV status.
    Status,
    /// Change volume.
    Volume(VolumeArgs),
    /// Toggle or set mute.
    Mute(MuteArgs),
    /// Switch to an HDMI input (not carried out yet).
    Hdmi { number: u8 },
    /// Launch an app (not carried out yet).
    App { name: String },
    /// Send a remote-control key (not carried out yet).
    Key { key: String },
    /// Run the local HTTP API service.
    Serve,
    /// Print the resolved configuration without sensitive values.
    Config,
}

/// The arguments of `volume`.
#[derive(Debug, Clone, Copy, PartialEq, Eq)]
pub struct VolumeArgs {
    pub action: VolumeAction,
}

/// What `volume` does.
#[derive(Debug, Clone, Copy, PartialEq, Eq)]
pub enum VolumeAction {
    Up,
    Down,
    /// Set the volume to a level (the `set` subcommand).
    SetLevel { level: u8 },
}

/// The arguments of `mute`; the state defaults to `toggle`.
#[derive(Debug, Clone, Copy, PartialEq, Eq)]
pub struct MuteArgs {
    pub state: MuteState,
}

/// What `mute` does.
#[derive(Debug, Clone, Copy, PartialEq, Eq)]
pub enum MuteState {
    Toggle,
    On,
    Off,
}

/// The name of a command as reports show it, with its arguments.
pub open spec fn command_name_text(c: Command) -> Seq<char> {
    match c {
        Command::Pair => "pair"@,
        Command::On => "on"@,
        Command::Off => "off"@,
        Command::Probe => "probe"@,
        Command::Status => "status"@,
        Command::Config => "config"@,
        Command::Volume(args) => match args.action {
            VolumeAction::Up => "volume up"@,
            VolumeAction::Down => "volume down"@,
            VolumeAction::SetLevel { level } => "volume set "@ + decimal(level as nat),
        },
        Command::Mute(args) => match args.state {
            MuteState::Toggle => "mute toggle"@,
            MuteState::On => "mute on"@,
            MuteState::Off => "mute off"@,
        },
        Command::Hdmi { number } => "hdmi "@ + decimal(number as nat),
        Command::App { name } => "app "@ + name@,
        Command::Key { key } => "key "@ + key@,
        Command::Serve => "serve"@,
    }
}

/// The name of a command as reports show it, e.g. `volume set 15`.
pub fn command_name(command: &Command) -> (s: String)
    ensures
        s@ == command_name_text(*command),
{
    match command {
        Command::Pair => owned("pair"),
        Command::On => owned("on"),
        Command::Off => owned("off"),
        Command::Probe => owned("probe"),
        Command::Status => owned("status"),
        Command::Config => owned("config"),
        Command::Volume(args) => match args.action {
            VolumeAction::Up => owned("volume up"),
            VolumeAction::Down => owned("volume down"),
            VolumeAction::SetLevel { level } => {
                let mut s = owned("volume set ");
                push_decimal(&mut s, level as u64);
                s
            },
        },
        Command::Mute(args) => match args.state {
            MuteState::Toggle => owned("mute toggle"),
            MuteState::On => owned("mute on"),
            MuteState::Off => owned("mute off"),
        },
        Command::Hdmi { number } => {
            let mut s = owned("hdmi ");
            push_decimal(&mut s, *number as u64);
            s
        },
        Command::App { name } => joined("app ", name.as_str()),
        Command::Key { key } => joined("key ", key.as_str()),
        Command::Serve => owned("serve"),
    }
}

} // verus!
