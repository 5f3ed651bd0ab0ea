//! How the program reaches a blockchain.
use vstd::prelude::*;

use crate::error::{Error, ErrorView};
use crate::naming::{descriptor_wallet_name, named};
use crate::opts::{Features, Network, ProxyOpts, WalletOpts};
use crate::text::{copy_pair, copy_text, text_of};

verus! {

/// A node or a server that the program started itself, for tests on a network of their own.
#[derive(Debug, PartialEq, Eq)]
pub enum Backend {
    /// The program started none.
    Absent,
    Bitcoin { rpc_url: String, rpc_auth: String },
    Electrum { electrum_url: String },
    Esplora { esplora_url: String },
}

/// A connection to an Electrum server.
#[derive(Debug, PartialEq, Eq)]
pub struct ElectrumConfig {
    pub url: String,
    pub socks5: Option<String>,
    pub retry: u8,
    pub timeout: Option<u8>,
    pub stop_gap: usize,
}

/// A connection to an Esplora server.
#[derive(Debug, PartialEq, Eq)]
pub struct EsploraConfig {
    pub base_url: String,
    pub timeout: Option<u64>,
    pub concurrency: Option<u8>,
    pub stop_gap: usize,
    pub proxy: Option<String>,
}

/// One connection to a peer that serves compact filters.
#[derive(Debug, PartialEq, Eq)]
pub struct PeerConfig {
    pub address: String,
    pub socks5: Option<String>,
    pub socks5_credentials: Option<(String, String)>,
}

/// Connections to peers that serve compact filters.
#[derive(Debug, PartialEq, Eq)]
pub struct CompactFiltersConfig {
    pub peers: Vec<PeerConfig>,
    pub network: Network,
    pub storage_dir: String,
    pub skip_blocks: Option<usize>,
}

/// How to log in at a Bitcoin node.
#[derive(Debug, PartialEq, Eq)]
pub enum Auth {
    UserPass { username: String, password: String },
    Cookie { file: String },
}

/// A connection to a Bitcoin node.
#[derive(Debug, PartialEq, Eq)]
pub struct RpcConfig {
    pub url: String,
    pub auth: Auth,
    pub network: Network,
    pub wallet_name: String,
    pub skip_blocks: Option<u32>,
}

/// A connection to a blockchain.
#[derive(Debug, PartialEq, Eq)]
pub enum BlockchainConfig {
    Electrum(ElectrumConfig),
    Esplora(EsploraConfig),
    CompactFilters(CompactFiltersConfig),
    Rpc(RpcConfig),
}

// ---------------------------------------------------------------------------------------------
// What each connection is
// ---------------------------------------------------------------------------------------------

/// The connection to an Electrum server: the one that the program started, else the one of the
/// options.
pub open spec fn electrum_config(opts: WalletOpts, backend: Backend) -> ElectrumConfig {
    ElectrumConfig {
        url: match backend {
            Backend::Electrum { electrum_url } => electrum_url,
            _ => opts.electrum_opts.server,
        },
        socks5: opts.proxy_opts.proxy,
        retry: opts.proxy_opts.retries,
        timeout: opts.electrum_opts.timeout,
        stop_gap: opts.electrum_opts.stop_gap,
    }
}

/// The connection to the Esplora server of the options.
pub open spec fn esplora_config(opts: WalletOpts) -> EsploraConfig {
    EsploraConfig {
        base_url: opts.esplora_opts.server,
        timeout: Some(opts.esplora_opts.timeout),
        concurrency: Some(opts.esplora_opts.conc),
        stop_gap: opts.esplora_opts.stop_gap,
        proxy: opts.proxy_opts.proxy,
    }
}

/// A connection to one peer, through the proxy.
pub open spec fn peer(address: String, proxy_opts: ProxyOpts) -> PeerConfig {
    PeerConfig {
        address,
        socks5: proxy_opts.proxy,
        socks5_credentials: proxy_opts.proxy_auth,
    }
}

/// `count` connections to each address, address by address.
pub open spec fn peers_at(
    addresses: Seq<String>,
    count: nat,
    proxy_opts: ProxyOpts,
) -> Seq<PeerConfig>
    decreases addresses.len(),
{
    if addresses.len() == 0 {
        Seq::empty()
    } else {
        peers_at(addresses.drop_last(), count, proxy_opts) + Seq::new(
            count,
            |i: int| peer(addresses.last(), proxy_opts),
        )
    }
}

/// Whether `config` holds the peers of the options and keeps its files in `storage_dir`.
pub open spec fn is_compact_filters_config(
    config: CompactFiltersConfig,
    network: Network,
    opts: WalletOpts,
    storage_dir: String,
) -> bool {
    &&& config.peers@ == peers_at(
        opts.compactfilter_opts.address@,
        opts.compactfilter_opts.conn_count as nat,
        opts.proxy_opts,
    )
    &&& config.network == network
    &&& config.storage_dir == storage_dir
    &&& config.skip_blocks == Some(opts.compactfilter_opts.skip_blocks)
}

/// The address of the node that the program started, else of the one of the options.
pub open spec fn rpc_address(opts: WalletOpts, backend: Backend) -> String {
    match backend {
        Backend::Bitcoin { rpc_url, .. } => rpc_url,
        _ => opts.rpc_opts.address,
    }
}

/// How to log in: with the cookie of the node that the program started, else with the cookie of
/// the options, else with their user and password.
pub open spec fn rpc_auth(opts: WalletOpts, backend: Backend) -> Auth {
    match backend {
        Backend::Bitcoin { rpc_auth, .. } => Auth::Cookie { file: rpc_auth },
        _ => match opts.rpc_opts.cookie {
            Some(cookie) => Auth::Cookie { file: cookie },
            None => Auth::UserPass {
                username: opts.rpc_opts.basic_auth.0,
                password: opts.rpc_opts.basic_auth.1,
            },
        },
    }
}

/// Whether `config` reaches the node over HTTP, for the wallet of that name.
pub open spec fn is_rpc_config(
    config: RpcConfig,
    network: Network,
    opts: WalletOpts,
    backend: Backend,
    wallet_name: Seq<char>,
) -> bool {
    &&& config.url@ == "http://"@ + rpc_address(opts, backend)@
    &&& config.auth == rpc_auth(opts, backend)
    &&& config.network == network
    &&& config.wallet_name@ == wallet_name
    &&& config.skip_blocks == opts.rpc_opts.skip_blocks
}

/// Whether a connection takes the name derived from the descriptors: one to a node does, unless
/// the directory for compact filters, which is looked for first, is missing.
pub open spec fn derives_name(
    features: Features,
    storage_dir: Result<Option<String>, Error>,
) -> bool {
    features.rpc && (features.compact_filters ==> storage_dir matches Ok(Some(_)))
}

/// Which connection a program makes. Of several kinds that it was built with, the last counts,
/// in the order Electrum, Esplora, compact filters, RPC. Compact filters need a directory, which
/// may not be had or may have no name in Unicode; that is a failure even where RPC counts.
pub open spec fn connection(
    features: Features,
    network: Network,
    opts: WalletOpts,
    backend: Backend,
    storage_dir: Result<Option<String>, Error>,
    config: Result<BlockchainConfig, Error>,
) -> bool {
    if features.compact_filters && storage_dir is Err {
        config == Err::<BlockchainConfig, Error>(storage_dir->Err_0)
    } else if features.compact_filters && storage_dir->Ok_0 is None {
        config matches Err(e) && e@ == ErrorView::Generic("Internal OS_String conversion error"@)
    } else if features.rpc {
        match opts.derived_name(network) {
            Ok(name) => config matches Ok(BlockchainConfig::Rpc(c)) && is_rpc_config(
                c,
                network,
                opts,
                backend,
                name,
            ),
            Err(text) => config matches Err(e) && e@ == ErrorView::Other(text),
        }
    } else if features.compact_filters {
        config matches Ok(BlockchainConfig::CompactFilters(c)) && is_compact_filters_config(
            c,
            network,
            opts,
            storage_dir->Ok_0->0,
        )
    } else if features.esplora {
        config == Ok::<BlockchainConfig, Error>(BlockchainConfig::Esplora(esplora_config(opts)))
    } else {
        config == Ok::<BlockchainConfig, Error>(
            BlockchainConfig::Electrum(electrum_config(opts, backend)),
        )
    }
}

// ---------------------------------------------------------------------------------------------
// Making connections
// ---------------------------------------------------------------------------------------------

fn new_electrum(wallet_opts: &WalletOpts, backend: &Backend) -> (config: ElectrumConfig)
    ensures
        config == electrum_config(*wallet_opts, *backend),
{
    let url = match backend {
        Backend::Electrum { electrum_url } => electrum_url.clone(),
        _ => wallet_opts.electrum_opts.server.clone(),
    };
    ElectrumConfig {
        url,
        socks5: copy_text(&wallet_opts.proxy_opts.proxy),
        retry: wallet_opts.proxy_opts.retries,
        timeout: wallet_opts.electrum_opts.timeout,
        stop_gap: wallet_opts.electrum_opts.stop_gap,
    }
}

fn new_esplora(wallet_opts: &WalletOpts) -> (config: EsploraConfig)
    ensures
        config == esplora_config(*wallet_opts),
{
    EsploraConfig {
        base_url: wallet_opts.esplora_opts.server.clone(),
        timeout: Some(wallet_opts.esplora_opts.timeout),
        concurrency: Some(wallet_opts.esplora_opts.conc),
        stop_gap: wallet_opts.esplora_opts.stop_gap,
        proxy: copy_text(&wallet_opts.proxy_opts.proxy),
    }
}

fn new_peers(addresses: &Vec<String>, count: usize, proxy_opts: &ProxyOpts) -> (peers: Vec<
    PeerConfig,
>)
    ensures
        peers@ == peers_at(addresses@, count as nat, *proxy_opts),
{
    let mut peers: Vec<PeerConfig> = Vec::new();
    let mut i: usize = 0;
    assert(addresses@.take(0) =~= Seq::<String>::empty());
    while i < addresses.len()
        invariant
            i <= addresses.len(),
            peers@ == peers_at(addresses@.take(i as int), count as nat, *proxy_opts),
        decreases addresses.len() - i,
    {
        let ghost done = peers@;
        let ghost one = peer(addresses@[i as int], *proxy_opts);
        let mut j: usize = 0;
        while j < count
            invariant
                i < addresses.len(),
                j <= count,
                one == peer(addresses@[i as int], *proxy_opts),
                peers@ == done + Seq::new(j as nat, |k: int| one),
            decreases count - j,
        {
            peers.push(
                PeerConfig {
                    address: addresses[i].clone(),
                    socks5: copy_text(&proxy_opts.proxy),
                    socks5_credentials: copy_pair(&proxy_opts.proxy_auth),
                },
            );
            j = j + 1;
            assert(peers@ =~= done + Seq::new(j as nat, |k: int| one));
        }
        i = i + 1;
        assert(addresses@.take(i as int).drop_last() =~= addresses@.take(i - 1));
        assert(peers@ =~= peers_at(addresses@.take(i as int), count as nat, *proxy_opts));
    }
    assert(addresses@.take(i as int) =~= addresses@);
    peers
}

fn new_rpc(
    network: Network,
    wallet_opts: &WalletOpts,
    backend: &Backend,
    wallet_name: String,
) -> (config: RpcConfig)
    ensures
        is_rpc_config(config, network, *wallet_opts, *backend, wallet_name@),
{
    let (address, auth) = match backend {
        Backend::Bitcoin { rpc_url, rpc_auth } => (
            rpc_url,
            Auth::Cookie { file: rpc_auth.clone() },
        ),
        _ => {
            let auth = match &wallet_opts.rpc_opts.cookie {
                Some(cookie) => Auth::Cookie { file: cookie.clone() },
                None => Auth::UserPass {
                    username: wallet_opts.rpc_opts.basic_auth.0.clone(),
                    password: wallet_opts.rpc_opts.basic_auth.1.clone(),
                },
            };
            (&wallet_opts.rpc_opts.address, auth)
        },
    };
    let mut url = "http://".to_string();
    url.append(address.as_str());
    RpcConfig {
        url,
        auth,
        network,
        wallet_name,
        skip_blocks: wallet_opts.rpc_opts.skip_blocks,
    }
}

/// Which connection to make. `storage_dir` is the directory for compact filters, `None` where
/// its name is not Unicode; without that feature it plays no part.
pub fn new_blockchain(
    features: Features,
    network: Network,
    wallet_opts: &WalletOpts,
    backend: &Backend,
    storage_dir: Result<Option<String>, Error>,
) -> (config: Result<BlockchainConfig, Error>)
    requires
        features.online(),
        derives_name(features, storage_dir) ==> wallet_opts.readable(network),
    ensures
        connection(features, network, *wallet_opts, *backend, storage_dir, config),
{
    let filters = if features.compact_filters {
        let peers = new_peers(
            &wallet_opts.compactfilter_opts.address,
            wallet_opts.compactfilter_opts.conn_count,
            &wallet_opts.proxy_opts,
        );
        let storage_dir = match storage_dir {
            Ok(Some(dir)) => dir,
            Ok(None) => {
                return Err(Error::Generic("Internal OS_String conversion error".to_string()));
            },
            Err(e) => {
                return Err(e);
            },
        };
        Some(
            CompactFiltersConfig {
                peers,
                network,
                storage_dir,
                skip_blocks: Some(wallet_opts.compactfilter_opts.skip_blocks),
            },
        )
    } else {
        None
    };
    if features.rpc {
        match descriptor_wallet_name(wallet_opts, network) {
            Ok(name) => Ok(BlockchainConfig::Rpc(new_rpc(network, wallet_opts, backend, name))),
            Err(e) => Err(e),
        }
    } else if let Some(config) = filters {
        Ok(BlockchainConfig::CompactFilters(config))
    } else if features.esplora {
        Ok(BlockchainConfig::Esplora(new_esplora(wallet_opts)))
    } else {
        Ok(BlockchainConfig::Electrum(new_electrum(wallet_opts, backend)))
    }
}

// ---------------------------------------------------------------------------------------------
// Laws
// ---------------------------------------------------------------------------------------------

/// There are as many connections to peers as addresses times connections to each, and those to
/// one address stand together, in the order of the addresses.
pub proof fn law_peer_positions(addresses: Seq<String>, count: nat, proxy_opts: ProxyOpts)
    ensures
        peers_at(addresses, count, proxy_opts).len() == addresses.len() * count,
        forall|i: int, j: int|
            #![trigger peers_at(addresses, count, proxy_opts)[i * count + j]]
            0 <= i < addresses.len() && 0 <= j < count ==> peers_at(
                addresses,
                count,
                proxy_opts,
            )[i * count + j] == peer(addresses[i], proxy_opts),
    decreases addresses.len(),
{
    let peers = peers_at(addresses, count, proxy_opts);
    if addresses.len() == 0 {
        assert(addresses.len() * count == 0) by (nonlinear_arith)
            requires
                addresses.len() == 0,
        ;
    } else {
        let front = addresses.drop_last();
        let n = front.len() as int;
        law_peer_positions(front, count, proxy_opts);
        assert((n + 1) * count == n * count + count) by (nonlinear_arith);
        assert forall|i: int, j: int|
            #![trigger peers[i * count + j]]
            0 <= i < addresses.len() && 0 <= j < count implies peers[i * count + j] == peer(
            addresses[i],
            proxy_opts,
        ) by {
            if i < n {
                assert(0 <= i * count + j < n * count) by (nonlinear_arith)
                    requires
                        0 <= i < n,
                        0 <= j < count,
                ;
                assert(peers[i * count + j] == peers_at(front, count, proxy_opts)[i * count + j]);
            }
        }
    }
}

/// A node is asked for the wallet under the name that the wallet got on this machine, where that
/// name was derived from the descriptors.
pub proof fn law_node_knows_wallet_by_its_name(
    before: WalletOpts,
    features: Features,
    network: Network,
    opts: WalletOpts,
    backend: Backend,
    storage_dir: Result<Option<String>, Error>,
    config: RpcConfig,
)
    requires
        before.wallet is None,
        named(before, network, Ok(opts)),
        connection(
            features,
            network,
            opts,
            backend,
            storage_dir,
            Ok(BlockchainConfig::Rpc(config)),
        ),
    ensures
        text_of(opts.wallet) == Some(config.wallet_name@),
{
}

/// The name of a wallet on this machine plays no part in the connection.
pub proof fn law_connection_ignores_wallet_name(
    a: WalletOpts,
    b: WalletOpts,
    features: Features,
    network: Network,
    backend: Backend,
    storage_dir: Result<Option<String>, Error>,
    config: Result<BlockchainConfig, Error>,
)
    requires
        b == (WalletOpts { wallet: b.wallet, ..a }),
    ensures
        connection(features, network, a, backend, storage_dir, config) <==> connection(
            features,
            network,
            b,
            backend,
            storage_dir,
            config,
        ),
{
}

} // verus!
