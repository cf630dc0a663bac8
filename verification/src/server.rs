//! The decisions behind the local HTTP API: which TV action each endpoint
//! takes, which requests it refuses, and the status code of each error.

use vstd::prelude::*;

use crate::cli::{Command, MuteArgs, MuteState, VolumeAction, VolumeArgs};
use crate::error::LgtvctlError;
use crate::plan::{plan, plan_spec, request_of, Action, ActionView};
use crate::webos::Payload;
use crate::text::owned;

verus! {

/// The highest volume the API sets.
pub const MAX_VOLUME: u8 = 100;

/// An endpoint of the HTTP API, each answering GET and POST.
#[derive(Debug, Clone, Copy, PartialEq, Eq)]
pub enum Endpoint {
    /// `/tv/on`
    On,
    /// `/tv/off`
    Off,
    /// `/tv/status`
    Status,
    /// `/tv/volume/up`
    VolumeUp,
    /// `/tv/volume/down`
    VolumeDown,
    /// `/tv/volume/set?value=<level>` and `/tv/volume/set/<level>`
    VolumeSet(u8),
    /// `/tv/mute`
    MuteToggle,
    /// `/tv/mute/on`
    MuteOn,
    /// `/tv/mute/off`
    MuteOff,
}

/// The command-line command that does what an endpoint does.
pub open spec fn endpoint_command(e: Endpoint) -> Command {
    match e {
        Endpoint::On => Command::On,
        Endpoint::Off => Command::Off,
        Endpoint::Status => Command::Status,
        Endpoint::VolumeUp => Command::Volume(VolumeArgs { action: VolumeAction::Up }),
        Endpoint::VolumeDown => Command::Volume(VolumeArgs { action: VolumeAction::Down }),
        Endpoint::VolumeSet(level) => Command::Volume(
            VolumeArgs { action: VolumeAction::SetLevel { level } },
        ),
        Endpoint::MuteToggle => Command::Mute(MuteArgs { state: MuteState::Toggle }),
        Endpoint::MuteOn => Command::Mute(MuteArgs { state: MuteState::On }),
        Endpoint::MuteOff => Command::Mute(MuteArgs { state: MuteState::Off }),
    }
}

/// Whether the API refuses an endpoint call: a volume above 100.
pub open spec fn is_refused(e: Endpoint) -> bool {
    e matches Endpoint::VolumeSet(level) && level > MAX_VOLUME
}

/// The message of a refused volume.
pub open spec fn volume_refusal() -> Seq<char> {
    "volume must be between 0 and 100"@
}

/// What an endpoint does: the same as its command-line command, except that a
/// volume above 100 is refused as a bad request with a message.
pub fn endpoint_action(e: Endpoint) -> (r: Result<Action, String>)
    ensures
        r is Err <==> is_refused(e),
        r matches Ok(a) ==> a@ == plan_spec(endpoint_command(e)),
        r matches Err(msg) ==> msg@ == volume_refusal(),
{
    let command = match e {
        Endpoint::On => Command::On,
        Endpoint::Off => Command::Off,
        Endpoint::Status => Command::Status,
        Endpoint::VolumeUp => Command::Volume(VolumeArgs { action: VolumeAction::Up }),
        Endpoint::VolumeDown => Command::Volume(VolumeArgs { action: VolumeAction::Down }),
        Endpoint::VolumeSet(level) => {
            if level > MAX_VOLUME {
                return Err(owned("volume must be between 0 and 100"));
            }
            Command::Volume(VolumeArgs { action: VolumeAction::SetLevel { level } })
        },
        Endpoint::MuteToggle => Command::Mute(MuteArgs { state: MuteState::Toggle }),
        Endpoint::MuteOn => Command::Mute(MuteArgs { state: MuteState::On }),
        Endpoint::MuteOff => Command::Mute(MuteArgs { state: MuteState::Off }),
    };
    Ok(plan(&command))
}

/// The HTTP status of an error: 400 for what the caller must fix in the
/// configuration or the request, 504 for a timeout, 500 for the rest.
pub open spec fn error_status_spec(e: LgtvctlError) -> u16 {
    match e {
        LgtvctlError::MissingHost | LgtvctlError::MissingClientKeyConfig
        | LgtvctlError::MissingMac | LgtvctlError::InvalidMac(_) => 400,
        LgtvctlError::Timeout { .. } => 504,
        _ => 500,
    }
}

/// The HTTP status of an error (see `error_status_spec`).
pub fn error_status(e: &LgtvctlError) -> (s: u16)
    ensures
        s == error_status_spec(*e),
{
    match e {
        LgtvctlError::MissingHost | LgtvctlError::MissingClientKeyConfig
        | LgtvctlError::MissingMac | LgtvctlError::InvalidMac(_) => 400,
        LgtvctlError::Timeout { .. } => 504,
        _ => 500,
    }
}

/// Each endpoint does what its path names: `/tv/on` wakes the TV, `/tv/off`
/// turns it off, `/tv/status` reads the volume state, `/tv/volume/up` and
/// `/tv/volume/down` raise and lower the volume, `/tv/volume/set` sets the
/// given level, `/tv/mute` toggles mute, and `/tv/mute/on` and
/// `/tv/mute/off` mute and unmute.
pub proof fn endpoints_do_what_they_name(e: Endpoint)
    ensures
        e is On ==> plan_spec(endpoint_command(e)) == ActionView::Wake,
        e is Off ==> plan_spec(endpoint_command(e)) == ActionView::Send(
            request_of("off"@, "ssap://system/turnOff"@, None),
        ),
        e is Status ==> plan_spec(endpoint_command(e)) == ActionView::Send(
            request_of("status"@, "ssap://audio/getVolume"@, None),
        ),
        e is VolumeUp ==> plan_spec(endpoint_command(e)) == ActionView::Send(
            request_of("volume_up"@, "ssap://audio/volumeUp"@, None),
        ),
        e is VolumeDown ==> plan_spec(endpoint_command(e)) == ActionView::Send(
            request_of("volume_down"@, "ssap://audio/volumeDown"@, None),
        ),
        e matches Endpoint::VolumeSet(level) ==> plan_spec(endpoint_command(e)) == ActionView::Send(
            request_of("volume_set"@, "ssap://audio/setVolume"@, Some(Payload::Volume(level))),
        ),
        e is MuteToggle ==> plan_spec(endpoint_command(e)) == ActionView::ToggleMute,
        e is MuteOn ==> plan_spec(endpoint_command(e)) == ActionView::Send(
            request_of("mute_on"@, "ssap://audio/setMute"@, Some(Payload::Mute(true))),
        ),
        e is MuteOff ==> plan_spec(endpoint_command(e)) == ActionView::Send(
            request_of("mute_off"@, "ssap://audio/setMute"@, Some(Payload::Mute(false))),
        ),
        is_refused(e) <==> (e matches Endpoint::VolumeSet(level) && level > 100),
{
}

/// Errors the caller can fix (missing host, client key or MAC address, or a
/// bad MAC address) are bad requests, timeouts are gateway timeouts, and
/// everything else is an internal error.
pub proof fn error_statuses_by_cause(e: LgtvctlError)
    ensures
        (e is MissingHost || e is MissingClientKeyConfig || e is MissingMac || e is InvalidMac)
            ==> error_status_spec(e) == 400,
        e is Timeout ==> error_status_spec(e) == 504,
        (e is NotImplemented || e is Protocol || e is MissingClientKey) ==> error_status_spec(e)
            == 500,
{
}

} // verus!
