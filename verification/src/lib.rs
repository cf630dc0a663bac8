//! Control logic for LG webOS televisions: configuration, Wake-on-LAN,
//! the webOS pairing and request protocol, and command planning.

pub mod text;
pub mod error;
pub mod config;
pub mod wol;
pub mod webos;
pub mod manifest;
pub mod cli;
pub mod plan;
pub mod server;

pub use config::Config;
pub use error::LgtvctlError;
