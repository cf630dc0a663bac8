//! The tool's configuration: its defaults, command-line overrides, the
//! checks that commands make on it, and where it is read from and saved to.

use vstd::prelude::*;
use std::time::Duration;

use crate::error::LgtvctlError;
use crate::text::{blank, is_blank, owned};

verus! {

/// The secure WebSocket port of LG webOS TVs.
pub const DEFAULT_PORT: u16 = 3001;

/// How long a connection, authentication or request may take, in milliseconds.
pub const DEFAULT_TIMEOUT_MS: u64 = 3000;

/// How long the user has to confirm pairing on the TV, in milliseconds.
pub const DEFAULT_PAIR_TIMEOUT_MS: u64 = 60000;

/// The settings of the tool.
#[derive(Debug)]
pub struct Config {
    /// IP address or DNS name of the TV.
    pub host: Option<String>,
    /// webOS secure WebSocket port, usually 3001.
    pub port: u16,
    /// Client key returned by the TV after pairing; absent or blank means not paired.
    pub client_key: Option<String>,
    /// Whether the TV's certificate chain is verified.
    pub verify_certificate: bool,
    /// Timeout of connections, authentication and requests, in milliseconds.
    pub timeout_ms: u64,
    /// Timeout of the pairing prompt, in milliseconds.
    pub pair_timeout_ms: u64,
    /// MAC address for Wake-on-LAN, e.g. `AA:BB:CC:DD:EE:FF`.
    pub mac: Option<String>,
    /// Broadcast address for Wake-on-LAN, e.g. `192.168.0.255`.
    pub wol_broadcast: Option<String>,
}

/// The configuration used when no file is found.
pub open spec fn default_config() -> Config {
    Config {
        host: None,
        port: DEFAULT_PORT,
        client_key: None,
        verify_certificate: false,
        timeout_ms: DEFAULT_TIMEOUT_MS,
        pair_timeout_ms: DEFAULT_PAIR_TIMEOUT_MS,
        mac: None,
        wol_broadcast: None,
    }
}

impl Default for Config {
    fn default() -> (c: Self)
        ensures
            c == default_config(),
    {
        Config {
            host: None,
            port: DEFAULT_PORT,
            client_key: None,
            verify_certificate: false,
            timeout_ms: DEFAULT_TIMEOUT_MS,
            pair_timeout_ms: DEFAULT_PAIR_TIMEOUT_MS,
            mac: None,
            wol_broadcast: None,
        }
    }
}

/// The default port of a configuration file that names none.
pub fn default_port() -> (p: u16)
    ensures
        p == DEFAULT_PORT,
{
    DEFAULT_PORT
}

/// The default timeout of a configuration file that names none.
pub fn default_timeout_ms() -> (t: u64)
    ensures
        t == DEFAULT_TIMEOUT_MS,
{
    DEFAULT_TIMEOUT_MS
}

/// The default pairing timeout of a configuration file that names none.
pub fn default_pair_timeout_ms() -> (t: u64)
    ensures
        t == DEFAULT_PAIR_TIMEOUT_MS,
{
    DEFAULT_PAIR_TIMEOUT_MS
}

/// What `Duration::from_millis` gives for a number of milliseconds.
pub uninterp spec fn millis_duration(ms: u64) -> Duration;

/// `Duration::from_millis`: the span of `ms` milliseconds, the same span for
/// the same number.
#[verifier::external_body]
fn duration_from_millis(ms: u64) -> (d: Duration)
    ensures
        d == millis_duration(ms),
{
    Duration::from_millis(ms)
}

pub(crate) fn clone_text(o: &Option<String>) -> (r: Option<String>)
    ensures
        r == *o,
{
    match o {
        Some(s) => Some(s.clone()),
        None => None,
    }
}

impl Config {
    /// The configuration with each given override in place of its field.
    pub open spec fn overridden(
        self,
        host: Option<String>,
        port: Option<u16>,
        mac: Option<String>,
        wol_broadcast: Option<String>,
    ) -> Config {
        Config {
            host: if host is Some { host } else { self.host },
            port: match port {
                Some(p) => p,
                None => self.port,
            },
            mac: if mac is Some { mac } else { self.mac },
            wol_broadcast: if wol_broadcast is Some { wol_broadcast } else { self.wol_broadcast },
            ..self
        }
    }

    /// Puts the overrides given on the command line in place of the values read
    /// from the configuration file; an absent override keeps the file's value.
    pub fn apply_overrides(
        &mut self,
        host: Option<String>,
        port: Option<u16>,
        mac: Option<String>,
        wol_broadcast: Option<String>,
    )
        ensures
            *final(self) == old(self).overridden(host, port, mac, wol_broadcast),
    {
        if let Some(host) = host {
            self.host = Some(host);
        }
        if let Some(port) = port {
            self.port = port;
        }
        if let Some(mac) = mac {
            self.mac = Some(mac);
        }
        if let Some(wol_broadcast) = wol_broadcast {
            self.wol_broadcast = Some(wol_broadcast);
        }
    }

    /// The TV host, or `MissingHost` when none is configured.
    pub fn require_host(&self) -> (r: Result<&str, LgtvctlError>)
        ensures
            r is Ok <==> self.host is Some,
            r matches Ok(h) ==> h@ == self.host->0@,
            r matches Err(e) ==> e == LgtvctlError::MissingHost,
    {
        match &self.host {
            Some(h) => Ok(h.as_str()),
            None => Err(LgtvctlError::MissingHost),
        }
    }

    /// The client key, or `MissingClientKeyConfig` when it is absent or blank.
    pub fn require_client_key(&self) -> (r: Result<&str, LgtvctlError>)
        ensures
            r is Ok <==> (self.client_key is Some && !is_blank(self.client_key->0@)),
            r matches Ok(k) ==> k@ == self.client_key->0@,
            r matches Err(e) ==> e == LgtvctlError::MissingClientKeyConfig,
    {
        match &self.client_key {
            Some(k) => {
                if blank(k.as_str()) {
                    Err(LgtvctlError::MissingClientKeyConfig)
                } else {
                    Ok(k.as_str())
                }
            },
            None => Err(LgtvctlError::MissingClientKeyConfig),
        }
    }

    /// The Wake-on-LAN MAC address, or `MissingMac` when it is absent or blank.
    pub fn require_mac(&self) -> (r: Result<&str, LgtvctlError>)
        ensures
            r is Ok <==> (self.mac is Some && !is_blank(self.mac->0@)),
            r matches Ok(m) ==> m@ == self.mac->0@,
            r matches Err(e) ==> e == LgtvctlError::MissingMac,
    {
        match &self.mac {
            Some(m) => {
                if blank(m.as_str()) {
                    Err(LgtvctlError::MissingMac)
                } else {
                    Ok(m.as_str())
                }
            },
            None => Err(LgtvctlError::MissingMac),
        }
    }

    /// The timeout of connections, authentication and requests.
    pub fn timeout(&self) -> (d: Duration)
        ensures
            d == millis_duration(self.timeout_ms),
    {
        duration_from_millis(self.timeout_ms)
    }

    /// The timeout of the pairing prompt.
    pub fn pair_timeout(&self) -> (d: Duration)
        ensures
            d == millis_duration(self.pair_timeout_ms),
    {
        duration_from_millis(self.pair_timeout_ms)
    }

    /// A copy of the configuration that holds the given client key; this is
    /// what pairing saves.
    pub fn with_client_key(&self, client_key: String) -> (c: Config)
        ensures
            c == (Config { client_key: Some(client_key), ..*self }),
    {
        Config {
            host: clone_text(&self.host),
            port: self.port,
            client_key: Some(client_key),
            verify_certificate: self.verify_certificate,
            timeout_ms: self.timeout_ms,
            pair_timeout_ms: self.pair_timeout_ms,
            mac: clone_text(&self.mac),
            wol_broadcast: clone_text(&self.wol_broadcast),
        }
    }
}

/// The configuration files looked for, in order, when neither the command
/// line nor `LGTVCTL_CONFIG` names an existing one.
pub open spec fn candidate_paths() -> Seq<Seq<char>> {
    seq!["./lgtvctl.toml"@, "./config/lgtvctl.toml"@, "/etc/lgtvctl.toml"@]
}

/// The file that pairing writes when nothing else names one.
pub open spec fn fallback_save_path() -> Seq<char> {
    "./lgtvctl.toml"@
}

/// The candidate configuration files, in the order they are looked for.
pub fn config_candidates() -> (r: Vec<String>)
    ensures
        r@.len() == 3,
        forall|i: int| 0 <= i < 3 ==> #[trigger] r@[i]@ == candidate_paths()[i],
{
    let mut r: Vec<String> = Vec::new();
    r.push(owned("./lgtvctl.toml"));
    r.push(owned("./config/lgtvctl.toml"));
    r.push(owned("/etc/lgtvctl.toml"));
    r
}

/// The index of the first candidate that exists.
pub open spec fn first_existing(exists: Seq<bool>) -> Option<int>
    decreases exists.len(),
{
    if exists.len() == 0 {
        None
    } else if exists[0] {
        Some(0)
    } else {
        match first_existing(exists.drop_first()) {
            Some(i) => Some(i + 1),
            None => None,
        }
    }
}

/// The file found without a command-line path: the one `LGTVCTL_CONFIG` names
/// if it exists, else the first existing candidate.
pub open spec fn found_path(env_path: Option<Seq<char>>, env_exists: bool, candidates_exist: Seq<bool>) -> Option<Seq<char>> {
    if env_path is Some && env_exists {
        env_path
    } else {
        match first_existing(candidates_exist) {
            Some(i) => Some(candidate_paths()[i]),
            None => None,
        }
    }
}

/// The file the configuration is read from: the command-line path if given,
/// else what `found_path` finds; `None` means the defaults.
pub open spec fn load_path_of(
    cli_path: Option<Seq<char>>,
    env_path: Option<Seq<char>>,
    env_exists: bool,
    candidates_exist: Seq<bool>,
) -> Option<Seq<char>> {
    if cli_path is Some {
        cli_path
    } else {
        found_path(env_path, env_exists, candidates_exist)
    }
}

/// The file pairing saves to: the command-line path, else `LGTVCTL_CONFIG`
/// (whether or not it exists), else the first existing candidate, else
/// `./lgtvctl.toml`.
pub open spec fn save_path_of(
    cli_path: Option<Seq<char>>,
    env_path: Option<Seq<char>>,
    candidates_exist: Seq<bool>,
) -> Seq<char> {
    if cli_path is Some {
        cli_path->0
    } else if env_path is Some {
        env_path->0
    } else {
        match first_existing(candidates_exist) {
            Some(i) => candidate_paths()[i],
            None => fallback_save_path(),
        }
    }
}

/// The view of an optional string.
pub open spec fn opt_view(o: Option<&str>) -> Option<Seq<char>> {
    match o {
        Some(s) => Some(s@),
        None => None,
    }
}

fn first_existing_index(exists: &[bool; 3]) -> (r: Option<usize>)
    ensures
        r matches Some(i) ==> i < 3 && first_existing(exists@) == Some(i as int),
        r is None ==> first_existing(exists@) is None,
{
    let ghost e = exists@;
    proof {
        reveal_with_fuel(first_existing, 4);
        assert(e.drop_first()[0] == e[1]);
        assert(e.drop_first().drop_first()[0] == e[2]);
        assert(e.drop_first().drop_first().drop_first().len() == 0);
    }
    if exists[0] {
        Some(0)
    } else if exists[1] {
        Some(1)
    } else if exists[2] {
        Some(2)
    } else {
        None
    }
}

fn candidate_at(i: usize) -> (s: String)
    requires
        i < 3,
    ensures
        s@ == candidate_paths()[i as int],
{
    let c = config_candidates();
    c[i].clone()
}

/// The file found without a command-line path (see `found_path`).
/// `env_exists` says whether the file that `env_path` names exists;
/// `candidates_exist[i]` whether candidate `i` exists.
pub fn default_config_path(env_path: Option<&str>, env_exists: bool, candidates_exist: &[bool; 3]) -> (r: Option<String>)
    ensures
        match found_path(opt_view(env_path), env_exists, candidates_exist@) {
            Some(p) => r matches Some(s) && s@ == p,
            None => r is None,
        },
{
    if let Some(p) = env_path {
        if env_exists {
            return Some(owned(p));
        }
    }
    match first_existing_index(candidates_exist) {
        Some(i) => Some(candidate_at(i)),
        None => None,
    }
}

/// The file the configuration is read from (see `load_path_of`).
pub fn config_load_path(
    cli_path: Option<&str>,
    env_path: Option<&str>,
    env_exists: bool,
    candidates_exist: &[bool; 3],
) -> (r: Option<String>)
    ensures
        match load_path_of(opt_view(cli_path), opt_view(env_path), env_exists, candidates_exist@) {
            Some(p) => r matches Some(s) && s@ == p,
            None => r is None,
        },
{
    match cli_path {
        Some(p) => Some(owned(p)),
        None => default_config_path(env_path, env_exists, candidates_exist),
    }
}

/// The file pairing saves the client key to (see `save_path_of`).
pub fn config_save_path(cli_path: Option<&str>, env_path: Option<&str>, candidates_exist: &[bool; 3]) -> (r: String)
    ensures
        r@ == save_path_of(opt_view(cli_path), opt_view(env_path), candidates_exist@),
{
    if let Some(p) = cli_path {
        return owned(p);
    }
    if let Some(p) = env_path {
        return owned(p);
    }
    match first_existing_index(candidates_exist) {
        Some(i) => candidate_at(i),
        None => owned("./lgtvctl.toml"),
    }
}

/// Command-line overrides replace the file's values and nothing else:
/// giving none leaves the configuration as it was, and giving the same
/// overrides again changes nothing more.
pub proof fn overrides_settle(c: Config, host: Option<String>, port: Option<u16>, mac: Option<String>, wol_broadcast: Option<String>)
    ensures
        c.overridden(None, None, None, None) == c,
        c.overridden(host, port, mac, wol_broadcast).overridden(host, port, mac, wol_broadcast)
            == c.overridden(host, port, mac, wol_broadcast),
        host is Some ==> c.overridden(host, port, mac, wol_broadcast).host == host,
        port is Some ==> c.overridden(host, port, mac, wol_broadcast).port == port->0,
        mac is Some ==> c.overridden(host, port, mac, wol_broadcast).mac == mac,
        wol_broadcast is Some ==> c.overridden(host, port, mac, wol_broadcast).wol_broadcast
            == wol_broadcast,
{
}

/// Pairing saves the client key to the file the configuration was read from,
/// whenever one was read; the one exception is an `LGTVCTL_CONFIG` that names
/// a missing file, which is not read but is written.
pub proof fn save_path_is_load_path(
    cli_path: Option<Seq<char>>,
    env_path: Option<Seq<char>>,
    env_exists: bool,
    candidates_exist: Seq<bool>,
)
    requires
        load_path_of(cli_path, env_path, env_exists, candidates_exist) is Some,
        env_path is Some ==> env_exists,
    ensures
        save_path_of(cli_path, env_path, candidates_exist) == load_path_of(
            cli_path,
            env_path,
            env_exists,
            candidates_exist,
        )->0,
{
}

/// The search order: a path given on the command line wins; else an existing
/// `LGTVCTL_CONFIG`; else the first of `./lgtvctl.toml`,
/// `./config/lgtvctl.toml` and `/etc/lgtvctl.toml` that exists; else no file
/// is read and the defaults apply.
pub proof fn search_order(
    cli_path: Option<Seq<char>>,
    env_path: Option<Seq<char>>,
    env_exists: bool,
    candidates_exist: Seq<bool>,
)
    requires
        candidates_exist.len() == 3,
    ensures
        cli_path is Some ==> load_path_of(cli_path, env_path, env_exists, candidates_exist)
            == cli_path,
        cli_path is None && env_path is Some && env_exists ==> load_path_of(
            cli_path,
            env_path,
            env_exists,
            candidates_exist,
        ) == env_path,
        forall|i: int|
            0 <= i < 3 && cli_path is None && !(env_path is Some && env_exists) && #[trigger] candidates_exist[i]
                && (forall|j: int| 0 <= j < i ==> !candidates_exist[j]) ==> load_path_of(
                cli_path,
                env_path,
                env_exists,
                candidates_exist,
            ) == Some(candidate_paths()[i]),
        cli_path is None && !(env_path is Some && env_exists) && !candidates_exist[0]
            && !candidates_exist[1] && !candidates_exist[2] ==> load_path_of(
            cli_path,
            env_path,
            env_exists,
            candidates_exist,
        ) is None,
{
    let e = candidates_exist;
    reveal_with_fuel(first_existing, 4);
    assert(e.drop_first()[0] == e[1]);
    assert(e.drop_first().drop_first()[0] == e[2]);
    assert(e.drop_first().drop_first().drop_first().len() == 0);
}

} // verus!
