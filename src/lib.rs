//! Launches, watches and stops the processes of a local regtest network
//! (a zcashd validator and the zainod or lightwalletd indexers) for
//! integration tests.
//!
//! The library holds the decisions: which port a process gets, which
//! arguments and configuration text it is started with, whether its logs
//! show it ready or failed, and how it is stopped. Spawning, reading files
//! and sleeping are left to the caller, which hands the library what it
//! observed.

pub mod command;
pub mod config;
pub mod launch;
pub mod lifecycle;
pub mod network;
pub mod ports;
pub mod process;
pub mod readiness;
pub mod text;

pub use command::{
    generate_args, lightwalletd_args, stop_args, zainod_args, zcash_cli_args, zcashd_args,
};
pub use launch::{
    IndexerConfig, LightwalletdConfig, ValidatorConfig, ZainodConfig, ZcashdConfig,
};
pub use lifecycle::Lifecycle;
pub use network::{localhost_uri, localhost_uri_text, ActivationHeights, UriError, LOCALHOST_IPV4};
pub use ports::{pick_unused_port, settle_port, PortError, PORT_RANGE_END, PORT_RANGE_START};
pub use process::{
    graceful_stop_follow_up, LaunchState, Process, StopAction, StopFollowUp,
    ERROR_MARKER, LIGHTWALLETD_LOG, STDERR_LOG, STDOUT_LOG, ZCASH_CLI_BIN,
};
pub use readiness::{poll_readiness, LaunchError, Readiness, ReadinessCriteria};
pub use text::{contains_marker, decimal};
