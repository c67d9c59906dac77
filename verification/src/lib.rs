//! The logic of `clash`, a command-line tool that runs a local proxy daemon
//! on Linux: the terminal proxy, the daemon's binary and its service,
//! subscription profiles, the controller's API and, most of all, the
//! transparent-proxy (TUN) mode with its configuration defaults, its
//! redirect rules for nftables and iptables, its privilege guard, its
//! diagnostics and its recorded state.
//!
//! Nothing here touches the machine. A command is a function of its
//! arguments, of what the process knows about its surroundings
//! ([`host::HostEnv`]) and of the record of what the machine answered so far
//! ([`host::Exchange`]). Its result is either the report of the finished
//! command or the next request to the machine ([`host::Step`]); the caller
//! carries the request out, adds the answer to the record and runs the
//! command again. What a command does is stated once, as a function on
//! records, and the executable code is proved to compute it.

pub mod api;
pub mod cli;
pub mod files;
pub mod host;
pub mod json;
pub mod kernel;
pub mod messages;
pub mod output;
pub mod paths;
pub mod profile;
pub mod proxy;
pub mod service;
pub mod setup;
pub mod text;
pub mod tun;
pub mod yaml;
