//! What the command line says: the options of a wallet and the command to run.
use vstd::prelude::*;

use crate::text::{copy_pair, copy_text};

verus! {

/// The network that a wallet lives on.
#[derive(Debug, Clone, Copy, PartialEq, Eq, Structural)]
pub enum Network {
    Bitcoin,
    Testnet,
    Signet,
    Regtest,
}

/// How to reach an Electrum server.
#[derive(Debug, PartialEq, Eq)]
pub struct ElectrumOpts {
    /// The address of the server.
    pub server: String,
    /// How many seconds a request may take.
    pub timeout: Option<u8>,
    /// How many unused addresses in a row end a search.
    pub stop_gap: usize,
}

/// How to reach an Esplora server.
#[derive(Debug, PartialEq, Eq)]
pub struct EsploraOpts {
    /// The address of the server.
    pub server: String,
    /// How many seconds a request may take.
    pub timeout: u64,
    /// How many requests run side by side.
    pub conc: u8,
    /// How many unused addresses in a row end a search.
    pub stop_gap: usize,
}

/// Which peers serve compact filters.
#[derive(Debug, PartialEq, Eq)]
pub struct CompactFilterOpts {
    /// The addresses of the peers.
    pub address: Vec<String>,
    /// How many connections to open to each of them.
    pub conn_count: usize,
    /// How many blocks to skip.
    pub skip_blocks: usize,
}

/// How to reach a Bitcoin node.
#[derive(Debug, PartialEq, Eq)]
pub struct RpcOpts {
    /// The address of the node, without a scheme.
    pub address: String,
    /// The user and the password.
    pub basic_auth: (String, String),
    /// The cookie file, which goes before the user and the password.
    pub cookie: Option<String>,
    /// How many blocks to skip in the first scan.
    pub skip_blocks: Option<u32>,
}

/// The proxy that connections go through.
#[derive(Debug, PartialEq, Eq)]
pub struct ProxyOpts {
    /// The address of the proxy.
    pub proxy: Option<String>,
    /// The user and the password at the proxy.
    pub proxy_auth: Option<(String, String)>,
    /// How often to try again.
    pub retries: u8,
}

/// The options of a wallet.
#[derive(Debug, PartialEq, Eq)]
pub struct WalletOpts {
    /// The name of the wallet.
    pub wallet: Option<String>,
    /// The descriptor of the addresses to receive on.
    pub descriptor: String,
    /// The descriptor of the addresses for change.
    pub change_descriptor: Option<String>,
    /// Whether commands tell more than they must.
    pub verbose: bool,
    pub electrum_opts: ElectrumOpts,
    pub esplora_opts: EsploraOpts,
    pub compactfilter_opts: CompactFilterOpts,
    pub rpc_opts: RpcOpts,
    pub proxy_opts: ProxyOpts,
}

impl WalletOpts {
    /// Whether the options are the same as others.
    pub open spec fn same_as(self, other: WalletOpts) -> bool {
        &&& self == WalletOpts { compactfilter_opts: self.compactfilter_opts, ..other }
        &&& self.compactfilter_opts.address@ == other.compactfilter_opts.address@
        &&& self.compactfilter_opts.conn_count == other.compactfilter_opts.conn_count
        &&& self.compactfilter_opts.skip_blocks == other.compactfilter_opts.skip_blocks
    }

    /// A copy of the options.
    pub fn copy(&self) -> (copy: WalletOpts)
        ensures
            copy.same_as(*self),
    {
        let mut address: Vec<String> = Vec::new();
        let mut i: usize = 0;
        while i < self.compactfilter_opts.address.len()
            invariant
                i <= self.compactfilter_opts.address.len(),
                address@ == self.compactfilter_opts.address@.take(i as int),
            decreases self.compactfilter_opts.address.len() - i,
        {
            address.push(self.compactfilter_opts.address[i].clone());
            i = i + 1;
            assert(address@ =~= self.compactfilter_opts.address@.take(i as int));
        }
        assert(address@ =~= self.compactfilter_opts.address@);
        WalletOpts {
            wallet: copy_text(&self.wallet),
            descriptor: self.descriptor.clone(),
            change_descriptor: copy_text(&self.change_descriptor),
            verbose: self.verbose,
            electrum_opts: ElectrumOpts {
                server: self.electrum_opts.server.clone(),
                timeout: self.electrum_opts.timeout,
                stop_gap: self.electrum_opts.stop_gap,
            },
            esplora_opts: EsploraOpts {
                server: self.esplora_opts.server.clone(),
                timeout: self.esplora_opts.timeout,
                conc: self.esplora_opts.conc,
                stop_gap: self.esplora_opts.stop_gap,
            },
            compactfilter_opts: CompactFilterOpts {
                address,
                conn_count: self.compactfilter_opts.conn_count,
                skip_blocks: self.compactfilter_opts.skip_blocks,
            },
            rpc_opts: RpcOpts {
                address: self.rpc_opts.address.clone(),
                basic_auth: (
                    self.rpc_opts.basic_auth.0.clone(),
                    self.rpc_opts.basic_auth.1.clone(),
                ),
                cookie: copy_text(&self.rpc_opts.cookie),
                skip_blocks: self.rpc_opts.skip_blocks,
            },
            proxy_opts: ProxyOpts {
                proxy: copy_text(&self.proxy_opts.proxy),
                proxy_auth: copy_pair(&self.proxy_opts.proxy_auth),
                retries: self.proxy_opts.retries,
            },
        }
    }
}

/// What the program was built with.
#[derive(Debug, Clone, Copy, PartialEq, Eq, Structural)]
pub struct Features {
    pub electrum: bool,
    pub esplora: bool,
    pub compact_filters: bool,
    pub rpc: bool,
    pub repl: bool,
    pub compiler: bool,
    pub reserves: bool,
}

impl Features {
    /// Whether the program can reach a blockchain at all.
    pub open spec fn online(self) -> bool {
        self.electrum || self.esplora || self.compact_filters || self.rpc
    }

    /// Whether the program can reach a blockchain at all.
    pub fn can_go_online(&self) -> (r: bool)
        ensures
            r == self.online(),
    {
        self.electrum || self.esplora || self.compact_filters || self.rpc
    }
}

/// A command on a wallet: `N` are the commands that need a blockchain, `F` those that do not.
#[derive(Debug, PartialEq, Eq)]
pub enum WalletSubCommand<N, F> {
    OnlineWalletSubCommand(N),
    OfflineWalletSubCommand(F),
}

/// A command of the program; `K` are the commands on keys.
#[allow(inconsistent_fields)]
#[derive(Debug, PartialEq, Eq)]
pub enum CliSubCommand<N, F, K> {
    /// One command on a wallet.
    Wallet { wallet_opts: WalletOpts, subcommand: WalletSubCommand<N, F> },
    /// One command on keys.
    Key { subcommand: K },
    /// Compiling a spending policy into a descriptor.
    Compile { policy: String, script_type: String },
    /// Commands on a wallet, typed one after the other.
    Repl { wallet_opts: WalletOpts },
    /// Checking a proof of reserves of addresses.
    ExternalReserves {
        message: String,
        psbt: String,
        confirmations: usize,
        addresses: Vec<String>,
        electrum_opts: ElectrumOpts,
    },
}

/// The command line.
#[derive(Debug, PartialEq, Eq)]
pub struct CliOpts<N, F, K> {
    /// The network to work on.
    pub network: Network,
    /// The command to run.
    pub subcommand: CliSubCommand<N, F, K>,
}

/// A command typed at the prompt.
#[derive(Debug, PartialEq, Eq)]
pub enum ReplSubCommand<N, F, K> {
    OnlineWalletSubCommand(N),
    OfflineWalletSubCommand(F),
    KeySubCommand(K),
    /// Exit REPL loop
    Exit,
}

impl<N, F, K> CliSubCommand<N, F, K> {
    /// Whether a program built with `features` has the command.
    pub open spec fn available(self, features: Features) -> bool {
        match self {
            CliSubCommand::Wallet { subcommand, .. } => subcommand is OnlineWalletSubCommand
                ==> features.online(),
            CliSubCommand::Key { .. } => true,
            CliSubCommand::Compile { .. } => features.compiler,
            CliSubCommand::Repl { .. } => features.repl,
            CliSubCommand::ExternalReserves { .. } => features.reserves && features.electrum,
        }
    }

    /// Whether a program built with `features` has the command.
    pub fn is_available(&self, features: Features) -> (r: bool)
        ensures
            r == self.available(features),
    {
        match self {
            CliSubCommand::Wallet { subcommand, .. } => match subcommand {
                WalletSubCommand::OnlineWalletSubCommand(_) => features.can_go_online(),
                WalletSubCommand::OfflineWalletSubCommand(_) => true,
            },
            CliSubCommand::Key { .. } => true,
            CliSubCommand::Compile { .. } => features.compiler,
            CliSubCommand::Repl { .. } => features.repl,
            CliSubCommand::ExternalReserves { .. } => features.reserves && features.electrum,
        }
    }
}

} // verus!
