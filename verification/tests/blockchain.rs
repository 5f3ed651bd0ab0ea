use bdk_cli::blockchain::{
    new_blockchain, Auth, Backend, BlockchainConfig, CompactFiltersConfig, ElectrumConfig,
    EsploraConfig, PeerConfig, RpcConfig,
};
use bdk_cli::error::Error;
use bdk_cli::opts::{
    CompactFilterOpts, ElectrumOpts, EsploraOpts, Features, Network, ProxyOpts, RpcOpts, WalletOpts,
};

const DESCRIPTOR: &str = "pkh(tpubD6NzVbkrYhZ4XHndKkuB8FifXm8r5FQHwrN6oZuWCz13qb93rtgKvD4PQsqC4HP4yhV3tA2fqr2RbY5mNXfM7RxXUoeABoDtsFUq2zJq6YK/44'/1'/0'/0/*)";

fn features(electrum: bool, esplora: bool, compact_filters: bool, rpc: bool) -> Features {
    Features {
        electrum,
        esplora,
        compact_filters,
        rpc,
        repl: false,
        compiler: false,
        reserves: false,
    }
}

fn wallet() -> WalletOpts {
    WalletOpts {
        wallet: Some("mine".to_string()),
        descriptor: DESCRIPTOR.to_string(),
        change_descriptor: None,
        verbose: false,
        electrum_opts: ElectrumOpts {
            server: "ssl://electrum:60002".to_string(),
            timeout: Some(7),
            stop_gap: 11,
        },
        esplora_opts: EsploraOpts {
            server: "https://esplora/api/".to_string(),
            timeout: 5,
            conc: 4,
            stop_gap: 12,
        },
        compactfilter_opts: CompactFilterOpts {
            address: vec!["one:18444".to_string(), "two:18444".to_string()],
            conn_count: 2,
            skip_blocks: 33,
        },
        rpc_opts: RpcOpts {
            address: "127.0.0.1:18443".to_string(),
            basic_auth: ("user".to_string(), "password".to_string()),
            cookie: None,
            skip_blocks: Some(9),
        },
        proxy_opts: ProxyOpts {
            proxy: Some("proxy:9050".to_string()),
            proxy_auth: Some(("u".to_string(), "p".to_string())),
            retries: 3,
        },
    }
}

fn connect(
    features: Features,
    wallet: &WalletOpts,
    backend: &Backend,
) -> Result<BlockchainConfig, Error> {
    new_blockchain(features, Network::Testnet, wallet, backend, Ok(Some("dir".to_string())))
}

fn electrum(url: &str) -> BlockchainConfig {
    BlockchainConfig::Electrum(ElectrumConfig {
        url: url.to_string(),
        socks5: Some("proxy:9050".to_string()),
        retry: 3,
        timeout: Some(7),
        stop_gap: 11,
    })
}

fn esplora() -> BlockchainConfig {
    BlockchainConfig::Esplora(EsploraConfig {
        base_url: "https://esplora/api/".to_string(),
        timeout: Some(5),
        concurrency: Some(4),
        stop_gap: 12,
        proxy: Some("proxy:9050".to_string()),
    })
}

fn peer(address: &str) -> PeerConfig {
    PeerConfig {
        address: address.to_string(),
        socks5: Some("proxy:9050".to_string()),
        socks5_credentials: Some(("u".to_string(), "p".to_string())),
    }
}

fn filters() -> BlockchainConfig {
    BlockchainConfig::CompactFilters(CompactFiltersConfig {
        peers: vec![peer("one:18444"), peer("one:18444"), peer("two:18444"), peer("two:18444")],
        network: Network::Testnet,
        storage_dir: "dir".to_string(),
        skip_blocks: Some(33),
    })
}

fn rpc(url: &str, auth: Auth) -> BlockchainConfig {
    BlockchainConfig::Rpc(RpcConfig {
        url: url.to_string(),
        auth,
        network: Network::Testnet,
        wallet_name: "lasegmfs".to_string(),
        skip_blocks: Some(9),
    })
}

fn user() -> Auth {
    Auth::UserPass { username: "user".to_string(), password: "password".to_string() }
}

fn node() -> Backend {
    Backend::Bitcoin { rpc_url: "node:1".to_string(), rpc_auth: "/tmp/.cookie".to_string() }
}

#[test]
fn electrum_comes_from_the_options() {
    let only = features(true, false, false, false);
    assert_eq!(connect(only, &wallet(), &Backend::Absent), Ok(electrum("ssl://electrum:60002")));
    assert_eq!(connect(only, &wallet(), &node()), Ok(electrum("ssl://electrum:60002")));
}

#[test]
fn electrum_goes_to_the_server_of_its_own() {
    let backend = Backend::Electrum { electrum_url: "tcp://own:50001".to_string() };
    assert_eq!(
        connect(features(true, false, false, false), &wallet(), &backend),
        Ok(electrum("tcp://own:50001"))
    );
}

#[test]
fn esplora_comes_from_the_options_even_with_a_server_of_its_own() {
    let only = features(false, true, false, false);
    let backend = Backend::Esplora { esplora_url: "own:3000".to_string() };
    assert_eq!(connect(only, &wallet(), &Backend::Absent), Ok(esplora()));
    assert_eq!(connect(only, &wallet(), &backend), Ok(esplora()));
}

#[test]
fn each_peer_gets_its_connections() {
    assert_eq!(
        connect(features(false, false, true, false), &wallet(), &Backend::Absent),
        Ok(filters())
    );
}

#[test]
fn peers_are_addresses_times_connections() {
    for (addresses, count) in [(0, 4), (1, 0), (1, 4), (3, 1), (3, 5)] {
        let mut opts = wallet();
        opts.compactfilter_opts.address = (0..addresses).map(|i| format!("peer{}", i)).collect();
        opts.compactfilter_opts.conn_count = count;
        match connect(features(false, false, true, false), &opts, &Backend::Absent) {
            Ok(BlockchainConfig::CompactFilters(config)) => {
                assert_eq!(config.peers.len(), addresses * count);
                for (i, p) in config.peers.iter().enumerate() {
                    assert_eq!(*p, peer(&format!("peer{}", i / count)));
                }
            }
            other => panic!("unexpected {:?}", other),
        }
    }
}

#[test]
fn compact_filters_need_a_directory_with_a_name_in_unicode() {
    for rpc in [false, true] {
        let built = features(true, false, true, rpc);
        assert_eq!(
            new_blockchain(built, Network::Testnet, &wallet(), &Backend::Absent, Ok(None)),
            Err(Error::Generic("Internal OS_String conversion error".to_string()))
        );
        assert_eq!(
            new_blockchain(
                built,
                Network::Testnet,
                &wallet(),
                &Backend::Absent,
                Err(Error::Generic("denied".to_string()))
            ),
            Err(Error::Generic("denied".to_string()))
        );
    }
}

#[test]
fn the_directory_plays_no_part_without_compact_filters() {
    assert_eq!(
        new_blockchain(
            features(false, true, false, false),
            Network::Testnet,
            &wallet(),
            &Backend::Absent,
            Err(Error::ChecksumMismatch)
        ),
        Ok(esplora())
    );
}

#[test]
fn a_node_is_reached_with_user_and_password() {
    let only = features(false, false, false, true);
    assert_eq!(
        connect(only, &wallet(), &Backend::Absent),
        Ok(rpc("http://127.0.0.1:18443", user()))
    );
    let electrum = Backend::Electrum { electrum_url: "own".to_string() };
    assert_eq!(
        connect(only, &wallet(), &electrum),
        Ok(rpc("http://127.0.0.1:18443", user()))
    );
}

#[test]
fn a_cookie_goes_before_user_and_password() {
    let mut opts = wallet();
    opts.rpc_opts.cookie = Some("/home/.cookie".to_string());
    assert_eq!(
        connect(features(false, false, false, true), &opts, &Backend::Absent),
        Ok(rpc("http://127.0.0.1:18443", Auth::Cookie { file: "/home/.cookie".to_string() }))
    );
}

#[test]
fn a_node_of_its_own_is_reached_with_its_cookie() {
    let mut opts = wallet();
    opts.rpc_opts.cookie = Some("/home/.cookie".to_string());
    assert_eq!(
        connect(features(false, false, false, true), &opts, &node()),
        Ok(rpc("http://node:1", Auth::Cookie { file: "/tmp/.cookie".to_string() }))
    );
}

#[test]
fn a_node_needs_a_descriptor_to_name_the_wallet() {
    let mut opts = wallet();
    opts.descriptor = "rubbish".to_string();
    match connect(features(false, false, false, true), &opts, &Backend::Absent) {
        Err(Error::Other(text)) => assert!(!text.is_empty()),
        other => panic!("unexpected {:?}", other),
    }
    assert_eq!(
        connect(features(true, false, false, false), &opts, &Backend::Absent),
        Ok(electrum("ssl://electrum:60002"))
    );
}

#[test]
fn the_last_kind_of_connection_counts() {
    let absent = Backend::Absent;
    assert_eq!(connect(features(true, true, false, false), &wallet(), &absent), Ok(esplora()));
    assert_eq!(connect(features(true, true, true, false), &wallet(), &absent), Ok(filters()));
    assert_eq!(
        connect(features(true, true, true, true), &wallet(), &absent),
        Ok(rpc("http://127.0.0.1:18443", user()))
    );
}

#[test]
fn the_name_of_the_wallet_plays_no_part() {
    for built in [
        features(true, false, false, false),
        features(false, true, false, false),
        features(false, false, true, false),
        features(false, false, false, true),
    ] {
        let mut other = wallet();
        other.wallet = None;
        assert_eq!(
            connect(built, &wallet(), &Backend::Absent),
            connect(built, &other, &Backend::Absent)
        );
    }
}
