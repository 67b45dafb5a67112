use zcash_local_net::config;
use zcash_local_net::ActivationHeights;

fn heights() -> ActivationHeights {
    ActivationHeights {
        overwinter: 1,
        sapling: 2,
        blossom: 3,
        heartwood: 4,
        canopy: 5,
        nu5: 6,
    }
}

#[test]
fn config_zcashd() {
    let text = config::zcashd(1234, &heights(), None);
    assert_eq!(
        text,
        "\
### Blockchain Configuration
regtest=1
nuparams=5ba81b19:1 # Overwinter
nuparams=76b809bb:2 # Sapling
nuparams=2bb40e60:3 # Blossom
nuparams=f5b9230b:4 # Heartwood
nuparams=e9ff75a6:5 # Canopy
nuparams=c2d6d0b4:6 # NU5 (Orchard)

### MetaData Storage and Retrieval
# txindex:
# https://zcash.readthedocs.io/en/latest/rtd_pages/zcash_conf_guide.html#miscellaneous-options
txindex=1
# insightexplorer:
# https://zcash.readthedocs.io/en/latest/rtd_pages/insight_explorer.html?highlight=insightexplorer#additional-getrawtransaction-fields
insightexplorer=1
experimentalfeatures=1

### RPC Server Interface Options:
# https://zcash.readthedocs.io/en/latest/rtd_pages/zcash_conf_guide.html#json-rpc-options
rpcuser=xxxxxx
rpcpassword=xxxxxx
rpcport=1234
rpcallowip=127.0.0.1

# Buried config option to allow non-canonical RPC-PORT:
# https://zcash.readthedocs.io/en/latest/rtd_pages/zcash_conf_guide.html#zcash-conf-guide
listen=0"
    );
}

#[test]
fn config_zcashd_funded() {
    let text = config::zcashd(1234, &heights(), Some("test_addr_1234"));
    assert_eq!(
        text,
        "\
### Blockchain Configuration
regtest=1
nuparams=5ba81b19:1 # Overwinter
nuparams=76b809bb:2 # Sapling
nuparams=2bb40e60:3 # Blossom
nuparams=f5b9230b:4 # Heartwood
nuparams=e9ff75a6:5 # Canopy
nuparams=c2d6d0b4:6 # NU5 (Orchard)

### MetaData Storage and Retrieval
# txindex:
# https://zcash.readthedocs.io/en/latest/rtd_pages/zcash_conf_guide.html#miscellaneous-options
txindex=1
# insightexplorer:
# https://zcash.readthedocs.io/en/latest/rtd_pages/insight_explorer.html?highlight=insightexplorer#additional-getrawtransaction-fields
insightexplorer=1
experimentalfeatures=1

### RPC Server Interface Options:
# https://zcash.readthedocs.io/en/latest/rtd_pages/zcash_conf_guide.html#json-rpc-options
rpcuser=xxxxxx
rpcpassword=xxxxxx
rpcport=1234
rpcallowip=127.0.0.1

# Buried config option to allow non-canonical RPC-PORT:
# https://zcash.readthedocs.io/en/latest/rtd_pages/zcash_conf_guide.html#zcash-conf-guide
listen=0

### Zcashd Help provides documentation of the following:
mineraddress=test_addr_1234
minetolocalwallet=0 # This is set to false so that we can mine to a wallet, other than the zcashd wallet."
    );
}

#[test]
fn zainod() {
    let text = config::zainod(1234, 18232);
    assert_eq!(
        text,
        "\
# Configuration for Zaino

# Sets the TcpIngestor's status (true or false)
tcp_active = true

# Optional TcpIngestors listen port (use None or specify a port number)
listen_port = 1234

# Sets the NymIngestor's and NymDispatchers status (true or false)
nym_active = false

# Optional Nym conf path used for micnet client conf
nym_conf_path = \"/tmp/indexer/nym\"

# LightWalletD listen port [DEPRECATED]
lightwalletd_port = 9067

# Full node / validator listen port
zebrad_port = 18232

# Optional full node Username
node_user = \"xxxxxx\"

# Optional full node Password
node_password = \"xxxxxx\"

# Maximum requests allowed in the request queue
max_queue_size = 1024

# Maximum workers allowed in the worker pool
max_worker_pool_size = 64

# Minimum number of workers held in the worker pool when idle
idle_worker_pool_size = 4"
    );
}

#[test]
fn config_lightwalletd() {
    let log_file_path = "/tmp/logs/lwd.log";
    let text = config::lightwalletd(1234, log_file_path, "conf_path");
    assert_eq!(
        text,
        format!(
            "\
grpc-bind-addr: 127.0.0.1:1234
cache-size: 10
log-file: {log_file_path}
log-level: 10
zcash-conf-path: conf_path"
        )
    );
}

#[test]
fn config_zcashd_default_heights_and_large_port() {
    let text = config::zcashd(65535, &ActivationHeights::default(), None);
    assert!(text.contains("nuparams=5ba81b19:1 # Overwinter\n"));
    assert!(text.contains("nuparams=c2d6d0b4:1 # NU5 (Orchard)\n"));
    assert!(text.contains("\nrpcport=65535\n"));
    assert!(text.ends_with("listen=0"));
}
