//! What a caller asks for when launching a process.

use std::path::PathBuf;

use vstd::prelude::*;

use crate::network::ActivationHeights;
use crate::process::Process;

verus! {

#[verifier::external_type_specification]
#[verifier::external_body]
pub struct ExPathBuf(PathBuf);

/// Zcashd configuration.
///
/// `zcashd_bin` and `zcash_cli_bin` give the executables; `None` runs
/// "zcashd" / "zcash-cli" from the search path. Without `rpc_port` a free
/// port between 15000 and 25000 is picked. `miner_address` receives the
/// rewards of generated blocks.
pub struct ZcashdConfig {
    /// Zcashd binary location.
    pub zcashd_bin: Option<PathBuf>,
    /// Zcash-cli binary location.
    pub zcash_cli_bin: Option<PathBuf>,
    /// Zcashd RPC port.
    pub rpc_port: Option<u16>,
    /// Local network upgrade activation heights.
    pub activation_heights: ActivationHeights,
    /// Miner address.
    pub miner_address: Option<&'static str>,
}

impl Default for ZcashdConfig {
    /// Binaries from the search path, a picked port, every upgrade active
    /// from block 1, and no miner address.
    fn default() -> (r: ZcashdConfig)
        ensures
            r.zcashd_bin is None,
            r.zcash_cli_bin is None,
            r.rpc_port is None,
            r.activation_heights == (ActivationHeights {
                overwinter: 1,
                sapling: 1,
                blossom: 1,
                heartwood: 1,
                canopy: 1,
                nu5: 1,
            }),
            r.miner_address is None,
    {
        ZcashdConfig {
            zcashd_bin: None,
            zcash_cli_bin: None,
            rpc_port: None,
            activation_heights: ActivationHeights::default(),
            miner_address: None,
        }
    }
}

/// The configurations of validator processes.
pub enum ValidatorConfig {
    /// Zcashd configuration.
    Zcashd(ZcashdConfig),
}

/// Zainod configuration.
///
/// Without `listen_port` a free port between 15000 and 25000 is picked.
/// The validator must be running on `validator_port` before zainod is
/// launched.
pub struct ZainodConfig {
    /// Zainod binary location.
    pub zainod_bin: Option<PathBuf>,
    /// Listen RPC port.
    pub listen_port: Option<u16>,
    /// Validator RPC port.
    pub validator_port: u16,
}

/// Lightwalletd configuration.
///
/// Without `listen_port` a free port between 15000 and 25000 is picked.
/// The validator whose configuration file is `validator_conf` must be
/// running before lightwalletd is launched.
pub struct LightwalletdConfig {
    /// Lightwalletd binary location.
    pub lightwalletd_bin: Option<PathBuf>,
    /// Listen RPC port.
    pub listen_port: Option<u16>,
    /// Validator configuration file location.
    pub validator_conf: PathBuf,
}

/// The configurations of indexer and light-node processes.
pub enum IndexerConfig {
    /// Zainod configuration.
    Zainod(ZainodConfig),
    /// Lightwalletd configuration.
    Lightwalletd(LightwalletdConfig),
}

impl ValidatorConfig {
    /// The kind of process this configuration launches.
    pub fn process(&self) -> (r: Process)
        ensures
            r == Process::Zcashd,
    {
        match self {
            ValidatorConfig::Zcashd(_) => Process::Zcashd,
        }
    }

    /// The port asked for, if any.
    pub fn fixed_port(&self) -> (r: Option<u16>)
        ensures
            r == match self {
                ValidatorConfig::Zcashd(c) => c.rpc_port,
            },
    {
        match self {
            ValidatorConfig::Zcashd(c) => c.rpc_port,
        }
    }
}

impl IndexerConfig {
    /// The kind of process this configuration launches.
    pub fn process(&self) -> (r: Process)
        ensures
            r == match self {
                IndexerConfig::Zainod(_) => Process::Zainod,
                IndexerConfig::Lightwalletd(_) => Process::Lightwalletd,
            },
    {
        match self {
            IndexerConfig::Zainod(_) => Process::Zainod,
            IndexerConfig::Lightwalletd(_) => Process::Lightwalletd,
        }
    }

    /// The port asked for, if any.
    pub fn fixed_port(&self) -> (r: Option<u16>)
        ensures
            r == match self {
                IndexerConfig::Zainod(c) => c.listen_port,
                IndexerConfig::Lightwalletd(c) => c.listen_port,
            },
    {
        match self {
            IndexerConfig::Zainod(c) => c.listen_port,
            IndexerConfig::Lightwalletd(c) => c.listen_port,
        }
    }
}

} // verus!
