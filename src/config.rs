//! The text of each process's configuration file.

use vstd::prelude::*;

use crate::network::ActivationHeights;
use crate::text::{decimal, decimal_chars};

verus! {

/// Opening of the zcashd configuration, up to the Overwinter height.
pub const ZCASHD_HEAD: &'static str = "\
### Blockchain Configuration
regtest=1
nuparams=5ba81b19:";

/// Between the Overwinter and Sapling heights.
pub const ZCASHD_SAPLING: &'static str = " # Overwinter
nuparams=76b809bb:";

/// Between the Sapling and Blossom heights.
pub const ZCASHD_BLOSSOM: &'static str = " # Sapling
nuparams=2bb40e60:";

/// Between the Blossom and Heartwood heights.
pub const ZCASHD_HEARTWOOD: &'static str = " # Blossom
nuparams=f5b9230b:";

/// Between the Heartwood and Canopy heights.
pub const ZCASHD_CANOPY: &'static str = " # Heartwood
nuparams=e9ff75a6:";

/// Between the Canopy and NU5 heights.
pub const ZCASHD_NU5: &'static str = " # Canopy
nuparams=c2d6d0b4:";

/// Between the NU5 height and the RPC port.
pub const ZCASHD_RPC: &'static str = " # NU5 (Orchard)

### MetaData Storage and Retrieval
# txindex:
# https://zcash.readthedocs.io/en/latest/rtd_pages/zcash_conf_guide.html#miscellaneous-options
txindex=1
# insightexplorer:
# https://zcash.readthedocs.io/en/latest/rtd_pages/insight_explorer.html?highlight=insightexplorer#additional-getrawtransaction-fields
insightexplorer=1
experimentalfeatures=1

### RPC Server Interface Options:
# https://zcash.readthedocs.io/en/latest/rtd_pages/zcash_conf_guide.html#json-rpc-options
rpcuser=xxxxxx
rpcpassword=xxxxxx
rpcport=";

/// Close of the zcashd configuration, after the RPC port.
pub const ZCASHD_TAIL: &'static str = "
rpcallowip=127.0.0.1

# Buried config option to allow non-canonical RPC-PORT:
# https://zcash.readthedocs.io/en/latest/rtd_pages/zcash_conf_guide.html#zcash-conf-guide
listen=0";

/// Opening of the miner section, up to the miner address.
pub const ZCASHD_MINER: &'static str = "

### Zcashd Help provides documentation of the following:
mineraddress=";

/// Close of the miner section, after the miner address.
pub const ZCASHD_MINER_TAIL: &'static str = "
minetolocalwallet=0 # This is set to false so that we can mine to a wallet, other than the zcashd wallet.";

/// Opening of the zainod configuration, up to its listen port.
pub const ZAINOD_HEAD: &'static str = "\
# Configuration for Zaino

# Sets the TcpIngestor's status (true or false)
tcp_active = true

# Optional TcpIngestors listen port (use None or specify a port number)
listen_port = ";

/// Between zainod's listen port and the validator's port.
pub const ZAINOD_VALIDATOR: &'static str = "

# Sets the NymIngestor's and NymDispatchers status (true or false)
nym_active = false

# Optional Nym conf path used for micnet client conf
nym_conf_path = \"/tmp/indexer/nym\"

# LightWalletD listen port [DEPRECATED]
lightwalletd_port = 9067

# Full node / validator listen port
zebrad_port = ";

/// Close of the zainod configuration, after the validator's port.
pub const ZAINOD_TAIL: &'static str = "

# Optional full node Username
node_user = \"xxxxxx\"

# Optional full node Password
node_password = \"xxxxxx\"

# Maximum requests allowed in the request queue
max_queue_size = 1024

# Maximum workers allowed in the worker pool
max_worker_pool_size = 64

# Minimum number of workers held in the worker pool when idle
idle_worker_pool_size = 4";

/// Opening of the lightwalletd configuration, up to its port.
pub const LIGHTWALLETD_HEAD: &'static str = "grpc-bind-addr: 127.0.0.1:";

/// Between lightwalletd's port and its log file.
pub const LIGHTWALLETD_LOG_FILE: &'static str = "
cache-size: 10
log-file: ";

/// Between the log file and the validator's configuration path.
pub const LIGHTWALLETD_VALIDATOR: &'static str = "
log-level: 10
zcash-conf-path: ";

/// The zcashd configuration: regtest with the given upgrade heights, RPC
/// on `rpc_port`, and, when a miner address is given, block rewards paid
/// to it.
pub open spec fn zcashd_config_text(
    rpc_port: u16,
    h: ActivationHeights,
    miner_address: Option<Seq<char>>,
) -> Seq<char> {
    let base = ZCASHD_HEAD@ + decimal_chars(h.overwinter as nat) + ZCASHD_SAPLING@ + decimal_chars(h.sapling as nat)
        + ZCASHD_BLOSSOM@ + decimal_chars(h.blossom as nat) + ZCASHD_HEARTWOOD@ + decimal_chars(h.heartwood as nat)
        + ZCASHD_CANOPY@ + decimal_chars(h.canopy as nat) + ZCASHD_NU5@ + decimal_chars(h.nu5 as nat) + ZCASHD_RPC@
        + decimal_chars(rpc_port as nat) + ZCASHD_TAIL@;
    match miner_address {
        Some(addr) => base + ZCASHD_MINER@ + addr + ZCASHD_MINER_TAIL@,
        None => base,
    }
}

/// The zainod configuration: listen on `listen_port`, reach the validator
/// on `validator_port`.
pub open spec fn zainod_config_text(listen_port: u16, validator_port: u16) -> Seq<char> {
    ZAINOD_HEAD@ + decimal_chars(listen_port as nat) + ZAINOD_VALIDATOR@ + decimal_chars(validator_port as nat)
        + ZAINOD_TAIL@
}

/// The lightwalletd configuration: serve gRPC on `port`, log to
/// `log_file`, read the validator's configuration at `validator_config`.
pub open spec fn lightwalletd_config_text(
    port: u16,
    log_file: Seq<char>,
    validator_config: Seq<char>,
) -> Seq<char> {
    LIGHTWALLETD_HEAD@ + decimal_chars(port as nat) + LIGHTWALLETD_LOG_FILE@ + log_file
        + LIGHTWALLETD_VALIDATOR@ + validator_config
}

fn append_num(s: &mut String, n: u64)
    ensures
        final(s)@ == old(s)@ + decimal_chars(n as nat),
{
    let d = decimal(n);
    s.append(d.as_str());
}

/// The text of the zcashd configuration file.
pub fn zcashd(
    rpc_port: u16,
    activation_heights: &ActivationHeights,
    miner_address: Option<&str>,
) -> (r: String)
    ensures
        r@ == zcashd_config_text(
            rpc_port,
            *activation_heights,
            match miner_address {
                Some(a) => Some(a@),
                None => None,
            },
        ),
{
    let mut s = String::from_str(ZCASHD_HEAD);
    append_num(&mut s, activation_heights.overwinter as u64);
    s.append(ZCASHD_SAPLING);
    append_num(&mut s, activation_heights.sapling as u64);
    s.append(ZCASHD_BLOSSOM);
    append_num(&mut s, activation_heights.blossom as u64);
    s.append(ZCASHD_HEARTWOOD);
    append_num(&mut s, activation_heights.heartwood as u64);
    s.append(ZCASHD_CANOPY);
    append_num(&mut s, activation_heights.canopy as u64);
    s.append(ZCASHD_NU5);
    append_num(&mut s, activation_heights.nu5 as u64);
    s.append(ZCASHD_RPC);
    append_num(&mut s, rpc_port as u64);
    s.append(ZCASHD_TAIL);
    if let Some(addr) = miner_address {
        s.append(ZCASHD_MINER);
        s.append(addr);
        s.append(ZCASHD_MINER_TAIL);
    }
    s
}

/// The text of the zainod configuration file.
pub fn zainod(listen_port: u16, validator_port: u16) -> (r: String)
    ensures
        r@ == zainod_config_text(listen_port, validator_port),
{
    let mut s = String::from_str(ZAINOD_HEAD);
    append_num(&mut s, listen_port as u64);
    s.append(ZAINOD_VALIDATOR);
    append_num(&mut s, validator_port as u64);
    s.append(ZAINOD_TAIL);
    s
}

/// The text of the lightwalletd configuration file.
pub fn lightwalletd(grpc_bind_addr_port: u16, log_file: &str, validator_config: &str) -> (r:
    String)
    ensures
        r@ == lightwalletd_config_text(grpc_bind_addr_port, log_file@, validator_config@),
{
    let mut s = String::from_str(LIGHTWALLETD_HEAD);
    append_num(&mut s, grpc_bind_addr_port as u64);
    s.append(LIGHTWALLETD_LOG_FILE);
    s.append(log_file);
    s.append(LIGHTWALLETD_VALIDATOR);
    s.append(validator_config);
    s
}

} // verus!
