//! What holds of every connection, setting by setting.
use vstd::prelude::*;

use crate::blockchain::{
    connection, law_peer_positions, Backend, BlockchainConfig, CompactFiltersConfig,
    ElectrumConfig, EsploraConfig, RpcConfig,
};
use crate::error::Error;
use crate::naming::derived_name;
use crate::opts::{Features, Network, WalletOpts};

verus! {

/// The change descriptor of a wallet as characters.
pub open spec fn change_text(opts: WalletOpts) -> Option<Seq<char>> {
    match opts.change_descriptor {
        Some(change) => Some(change@),
        None => None,
    }
}

/// A connection to an Electrum server goes to the server that the program started, else to that
/// of the options; it goes through a proxy exactly where the options name one, and then through
/// that one; retries, timeout and stop gap are those of the options.
pub proof fn law_electrum_settings(
    features: Features,
    network: Network,
    opts: WalletOpts,
    backend: Backend,
    storage_dir: Result<Option<String>, Error>,
    config: ElectrumConfig,
)
    requires
        connection(
            features,
            network,
            opts,
            backend,
            storage_dir,
            Ok(BlockchainConfig::Electrum(config)),
        ),
    ensures
        backend is Electrum ==> config.url == backend->electrum_url,
        backend !is Electrum ==> config.url == opts.electrum_opts.server,
        config.socks5 == opts.proxy_opts.proxy,
        config.retry == opts.proxy_opts.retries,
        config.timeout == opts.electrum_opts.timeout,
        config.stop_gap == opts.electrum_opts.stop_gap,
{
}

/// A connection to an Esplora server goes to the server of the options, whatever the program
/// started, and through the proxy of the options where there is one; timeout, concurrency and
/// stop gap are those of the options.
pub proof fn law_esplora_settings(
    features: Features,
    network: Network,
    opts: WalletOpts,
    backend: Backend,
    storage_dir: Result<Option<String>, Error>,
    config: EsploraConfig,
)
    requires
        connection(
            features,
            network,
            opts,
            backend,
            storage_dir,
            Ok(BlockchainConfig::Esplora(config)),
        ),
    ensures
        config.base_url == opts.esplora_opts.server,
        config.timeout == Some(opts.esplora_opts.timeout),
        config.concurrency == Some(opts.esplora_opts.conc),
        config.stop_gap == opts.esplora_opts.stop_gap,
        config.proxy == opts.proxy_opts.proxy,
{
}

/// Compact filters come from as many connections to each peer of the options as they ask for,
/// peer by peer, each through the proxy of the options with its credentials; network, directory
/// and blocks to skip are those that were given.
pub proof fn law_compact_filters_settings(
    features: Features,
    network: Network,
    opts: WalletOpts,
    backend: Backend,
    storage_dir: Result<Option<String>, Error>,
    config: CompactFiltersConfig,
)
    requires
        connection(
            features,
            network,
            opts,
            backend,
            storage_dir,
            Ok(BlockchainConfig::CompactFilters(config)),
        ),
    ensures
        config.network == network,
        storage_dir == Ok::<Option<String>, Error>(Some(config.storage_dir)),
        config.skip_blocks == Some(opts.compactfilter_opts.skip_blocks),
        config.peers@.len() == opts.compactfilter_opts.address@.len()
            * opts.compactfilter_opts.conn_count,
        forall|i: int, j: int|
            #![trigger config.peers@[i * opts.compactfilter_opts.conn_count + j]]
            0 <= i < opts.compactfilter_opts.address@.len() && 0 <= j
                < opts.compactfilter_opts.conn_count ==> {
                let peer = config.peers@[i * opts.compactfilter_opts.conn_count + j];
                &&& peer.address == opts.compactfilter_opts.address@[i]
                &&& peer.socks5 == opts.proxy_opts.proxy
                &&& peer.socks5_credentials == opts.proxy_opts.proxy_auth
            },
{
    let count = opts.compactfilter_opts.conn_count;
    law_peer_positions(opts.compactfilter_opts.address@, count as nat, opts.proxy_opts);
    assert forall|i: int, j: int|
        #![trigger config.peers@[i * count + j]]
        0 <= i < opts.compactfilter_opts.address@.len() && 0 <= j < count implies {
        let peer = config.peers@[i * count + j];
        &&& peer.address == opts.compactfilter_opts.address@[i]
        &&& peer.socks5 == opts.proxy_opts.proxy
        &&& peer.socks5_credentials == opts.proxy_opts.proxy_auth
    } by {
        assert(i * (count as nat) + j == i * count + j);
    }
}

/// A node is reached over HTTP: the one that the program started, with its cookie, else that of
/// the options, with their cookie where there is one, else with their user and password. It is
/// asked for the wallet under the name derived from the descriptors on the network, on that
/// network, with the blocks to skip of the options.
pub proof fn law_node_settings(
    features: Features,
    network: Network,
    opts: WalletOpts,
    backend: Backend,
    storage_dir: Result<Option<String>, Error>,
    config: RpcConfig,
)
    requires
        connection(
            features,
            network,
            opts,
            backend,
            storage_dir,
            Ok(BlockchainConfig::Rpc(config)),
        ),
    ensures
        backend is Bitcoin ==> config.url@ == "http://"@ + backend->rpc_url@,
        backend !is Bitcoin ==> config.url@ == "http://"@ + opts.rpc_opts.address@,
        backend is Bitcoin ==> config.auth is Cookie && config.auth->file == backend->rpc_auth,
        backend !is Bitcoin && opts.rpc_opts.cookie is Some ==> config.auth is Cookie
            && config.auth->file == opts.rpc_opts.cookie->0,
        backend !is Bitcoin && opts.rpc_opts.cookie is None ==> config.auth is UserPass
            && config.auth->username == opts.rpc_opts.basic_auth.0 && config.auth->password
            == opts.rpc_opts.basic_auth.1,
        config.network == network,
        derived_name(opts.descriptor@, change_text(opts), network)
            == Ok::<Seq<char>, Seq<char>>(config.wallet_name@),
        config.skip_blocks == opts.rpc_opts.skip_blocks,
{
}

/// Of several kinds of connections that a program was built with, the last one counts, in the
/// order Electrum, Esplora, compact filters, RPC.
pub proof fn law_last_kind_counts(
    features: Features,
    network: Network,
    opts: WalletOpts,
    backend: Backend,
    storage_dir: Result<Option<String>, Error>,
    config: BlockchainConfig,
)
    requires
        features.electrum || features.esplora || features.compact_filters || features.rpc,
        connection(features, network, opts, backend, storage_dir, Ok(config)),
    ensures
        config is Rpc <==> features.rpc,
        config is CompactFilters <==> features.compact_filters && !features.rpc,
        config is Esplora <==> features.esplora && !features.compact_filters && !features.rpc,
        config is Electrum <==> features.electrum && !features.esplora
            && !features.compact_filters && !features.rpc,
{
}

/// A connection cannot be made exactly where compact filters lack a directory with a name in
/// Unicode, or where a node is to be asked and the descriptors give no name; the first of these
/// is the failure.
pub proof fn law_connection_fails_exactly_where_it_must(
    features: Features,
    network: Network,
    opts: WalletOpts,
    backend: Backend,
    storage_dir: Result<Option<String>, Error>,
    config: Result<BlockchainConfig, Error>,
)
    requires
        connection(features, network, opts, backend, storage_dir, config),
    ensures
        config is Err <==> (features.compact_filters && (storage_dir is Err || storage_dir->Ok_0
            is None)) || (features.rpc && derived_name(
            opts.descriptor@,
            change_text(opts),
            network,
        ) is Err),
        features.compact_filters && storage_dir is Err ==> config->Err_0 == storage_dir->Err_0,
        features.compact_filters && storage_dir is Ok && storage_dir->Ok_0 is None
            ==> config->Err_0 is Generic && config->Err_0->Generic_0@
            == "Internal OS_String conversion error"@,
        config is Err && (features.compact_filters ==> storage_dir is Ok && storage_dir->Ok_0
            is Some) ==> config->Err_0 is Other && derived_name(
            opts.descriptor@,
            change_text(opts),
            network,
        ) == Err::<Seq<char>, Seq<char>>(config->Err_0->Other_0@),
{
}

} // verus!
