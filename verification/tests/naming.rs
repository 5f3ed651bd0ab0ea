use bdk_cli::blockchain::{new_blockchain, Backend, BlockchainConfig};
use bdk_cli::error::{outcome, Error};
use bdk_cli::naming::{descriptor_wallet_name, maybe_descriptor_wallet_name, with_wallet_name};
use bdk_cli::opts::{
    CliSubCommand, CompactFilterOpts, ElectrumOpts, EsploraOpts, Features, Network, ProxyOpts,
    RpcOpts, WalletOpts, WalletSubCommand,
};

const PUBLIC: &str = "pkh(tpubD6NzVbkrYhZ4XHndKkuB8FifXm8r5FQHwrN6oZuWCz13qb93rtgKvD4PQsqC4HP4yhV3tA2fqr2RbY5mNXfM7RxXUoeABoDtsFUq2zJq6YK/44'/1'/0'/0/*)";
const SECRET: &str = "wpkh(tprv8ZgxMBicQKsPdpkqS7Eair4YxjcuuvDPNYmKX3sCniCf16tHEVrjjiSXEkFRnUH77yXc6ZcwHHcLNfjdi5qUvw3VDfgYiH5mNsj5izuiu2N/1/2/*)";

fn wallet(name: Option<&str>, descriptor: &str, change: Option<&str>) -> WalletOpts {
    WalletOpts {
        wallet: name.map(str::to_string),
        descriptor: descriptor.to_string(),
        change_descriptor: change.map(str::to_string),
        verbose: false,
        electrum_opts: ElectrumOpts {
            server: "ssl://electrum.blockstream.info:60002".to_string(),
            timeout: None,
            stop_gap: 10,
        },
        esplora_opts: EsploraOpts {
            server: "https://blockstream.info/testnet/api/".to_string(),
            timeout: 5,
            conc: 4,
            stop_gap: 10,
        },
        compactfilter_opts: CompactFilterOpts {
            address: vec!["127.0.0.1:18444".to_string()],
            conn_count: 4,
            skip_blocks: 0,
        },
        rpc_opts: RpcOpts {
            address: "127.0.0.1:18443".to_string(),
            basic_auth: ("user".to_string(), "password".to_string()),
            cookie: None,
            skip_blocks: None,
        },
        proxy_opts: ProxyOpts { proxy: None, proxy_auth: None, retries: 5 },
    }
}

fn name_of(descriptor: &str, change: Option<&str>, network: Network) -> String {
    descriptor_wallet_name(&wallet(None, descriptor, change), network).unwrap()
}

#[test]
fn a_name_that_was_given_stays() {
    let named = maybe_descriptor_wallet_name(wallet(Some("mine"), PUBLIC, None), Network::Testnet);
    assert_eq!(named, Ok(wallet(Some("mine"), PUBLIC, None)));
}

#[test]
fn a_given_name_stays_whatever_the_descriptor() {
    let named = maybe_descriptor_wallet_name(wallet(Some("mine"), "rubbish", None), Network::Bitcoin);
    assert_eq!(named, Ok(wallet(Some("mine"), "rubbish", None)));
}

#[test]
fn the_derived_name_is_the_checksum_of_the_descriptor() {
    assert_eq!(name_of(PUBLIC, None, Network::Testnet), "lasegmfs");
}

#[test]
fn only_the_name_is_put_in() {
    let named = maybe_descriptor_wallet_name(wallet(None, PUBLIC, None), Network::Testnet);
    assert_eq!(named, Ok(wallet(Some("lasegmfs"), PUBLIC, None)));
}

#[test]
fn the_change_descriptor_adds_to_the_name() {
    let change = format!("pkh({})", &PUBLIC[4..PUBLIC.len() - 1]);
    assert_eq!(name_of(PUBLIC, Some(&change), Network::Testnet), "lasegmfslasegmfs");
    let both = name_of(PUBLIC, Some(SECRET), Network::Testnet);
    assert_eq!(&both[..8], "lasegmfs");
    assert_eq!(both[8..], name_of(SECRET, None, Network::Testnet));
}

#[test]
fn a_private_key_does_not_go_into_the_name() {
    let name = name_of(SECRET, None, Network::Testnet);
    assert_eq!(name.len(), 8);
    assert_ne!(name, "tqz0nc62");
}

#[test]
fn the_name_follows_the_descriptors() {
    let mut other = wallet(None, PUBLIC, Some(SECRET));
    other.electrum_opts.server = "elsewhere".to_string();
    other.proxy_opts.retries = 0;
    assert_eq!(
        descriptor_wallet_name(&other, Network::Testnet),
        descriptor_wallet_name(&wallet(None, PUBLIC, Some(SECRET)), Network::Testnet)
    );
}

#[test]
fn naming_twice_is_naming_once() {
    let once = maybe_descriptor_wallet_name(wallet(None, SECRET, None), Network::Testnet).unwrap();
    assert!(once.wallet.is_some());
    let name = once.wallet.clone();
    let twice = maybe_descriptor_wallet_name(once, Network::Bitcoin).unwrap();
    assert_eq!(twice, wallet(name.as_deref(), SECRET, None));
}

#[test]
fn a_descriptor_that_is_none_is_refused() {
    match maybe_descriptor_wallet_name(wallet(None, "rubbish", None), Network::Testnet) {
        Err(Error::Other(text)) => assert!(!text.is_empty()),
        other => panic!("unexpected {:?}", other),
    }
}

#[test]
fn a_key_of_another_network_is_refused() {
    match maybe_descriptor_wallet_name(wallet(None, PUBLIC, None), Network::Bitcoin) {
        Err(Error::Other(text)) => assert!(!text.is_empty()),
        other => panic!("unexpected {:?}", other),
    }
    assert_eq!(name_of(PUBLIC, None, Network::Regtest), "lasegmfs");
    assert_eq!(name_of(PUBLIC, None, Network::Signet), "lasegmfs");
}

#[test]
fn a_refusal_is_passed_on() {
    assert_eq!(
        with_wallet_name(wallet(None, "d", None), Err(Error::ChecksumMismatch)),
        Err(Error::ChecksumMismatch)
    );
    assert_eq!(
        with_wallet_name(wallet(None, "d", None), Ok("n".to_string())),
        Ok(wallet(Some("n"), "d", None))
    );
    assert_eq!(outcome(Ok("a".to_string())), Ok("a".to_string()));
    assert_eq!(outcome(Err("b".to_string())), Err(Error::Other("b".to_string())));
}

#[test]
fn the_node_is_asked_under_the_same_name() {
    let opts = maybe_descriptor_wallet_name(wallet(None, PUBLIC, Some(SECRET)), Network::Testnet)
        .unwrap();
    let features = Features {
        electrum: false,
        esplora: false,
        compact_filters: false,
        rpc: true,
        repl: false,
        compiler: false,
        reserves: false,
    };
    match new_blockchain(features, Network::Testnet, &opts, &Backend::Absent, Ok(None)) {
        Ok(BlockchainConfig::Rpc(config)) => assert_eq!(Some(config.wallet_name), opts.wallet),
        other => panic!("unexpected {:?}", other),
    }
}

const UNCOMPRESSED: &str = "0479be667ef9dcbbac55a06295ce870b07029bfcdb2dce28d959f2815b16f81798483ada7726a3c4655da4fbfc0e1108a8fd17b448a68554199c47d08ffb10d4b8";

#[test]
fn a_wallet_with_a_name_needs_no_readable_descriptor() {
    let network = Network::Testnet;
    let unreadable = format!("wpkh({})", UNCOMPRESSED);
    assert!(!wallet(None, &unreadable, None).is_nameable(network));
    assert!(wallet(Some("mine"), &unreadable, None).is_nameable(network));
    assert!(wallet(None, PUBLIC, Some(SECRET)).is_nameable(network));

    let repl: CliSubCommand<(), (), ()> =
        CliSubCommand::Repl { wallet_opts: wallet(None, &unreadable, None) };
    assert!(!repl.is_nameable(network));
    let offline: CliSubCommand<(), (), ()> = CliSubCommand::Wallet {
        wallet_opts: wallet(Some("mine"), &unreadable, None),
        subcommand: WalletSubCommand::OfflineWalletSubCommand(()),
    };
    assert!(offline.is_nameable(network));
    let key: CliSubCommand<(), (), ()> = CliSubCommand::Key { subcommand: () };
    assert!(key.is_nameable(network));
}

#[test]
fn the_change_descriptor_is_read_only_after_the_other_gave_a_name() {
    let unreadable = format!("wpkh({})", UNCOMPRESSED);
    assert!(!wallet(None, PUBLIC, Some(&unreadable)).is_readable(Network::Testnet));
    let refused = wallet(None, PUBLIC, Some(&unreadable));
    assert!(refused.is_readable(Network::Bitcoin));
    assert!(matches!(
        descriptor_wallet_name(&refused, Network::Bitcoin),
        Err(Error::Other(_))
    ));
    let refused = wallet(None, "rubbish", Some(&unreadable));
    assert!(refused.is_readable(Network::Testnet));
    assert!(matches!(
        descriptor_wallet_name(&refused, Network::Testnet),
        Err(Error::Other(_))
    ));
}

#[test]
fn a_copy_of_the_options_is_the_same() {
    assert_eq!(wallet(None, PUBLIC, Some(SECRET)).copy(), wallet(None, PUBLIC, Some(SECRET)));
    let mut opts = wallet(Some("mine"), "d", None);
    opts.verbose = true;
    opts.rpc_opts.cookie = Some("/cookie".to_string());
    opts.proxy_opts.proxy_auth = Some(("u".to_string(), "p".to_string()));
    opts.compactfilter_opts.address = vec!["a".to_string(), "b".to_string()];
    assert_eq!(opts.copy(), opts);
}
