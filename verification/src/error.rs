//! The errors that the library's own logic can report.

use vstd::prelude::*;

verus! {

/// What went wrong in configuration, address handling or the webOS protocol.
#[derive(Debug, PartialEq, Eq)]
pub enum LgtvctlError {
    /// No TV host in the configuration or on the command line.
    MissingHost,
    /// No usable client key in the configuration: pair first.
    MissingClientKeyConfig,
    /// No usable MAC address for Wake-on-LAN.
    MissingMac,
    /// The MAC address text that could not be read.
    InvalidMac(String),
    /// A command that this version does not carry out.
    NotImplemented(String),
    /// An operation that did not finish in time.
    Timeout { operation: String, timeout_ms: u64 },
    /// The TV answered with an error or broke the protocol.
    Protocol(String),
    /// The TV accepted the pairing but sent no client key.
    MissingClientKey,
}

} // verus!
