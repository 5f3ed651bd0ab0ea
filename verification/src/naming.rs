//! The name that a wallet is stored under.
use vstd::prelude::*;

use crate::descriptor::{is_readable, readable};
use crate::error::{outcome, worded, Error, ErrorView};
use crate::opts::{CliSubCommand, Network, WalletOpts};
use crate::text::{outcome_of, str_of, text_of};

verus! {

/// The name that the wallet library derives from the descriptors of a wallet on a network, or
/// how it words its refusal.
pub uninterp spec fn derived_name(
    descriptor: Seq<char>,
    change_descriptor: Option<Seq<char>>,
    network: Network,
) -> Result<Seq<char>, Seq<char>>;

/// `bdk::wallet::wallet_name_from_descriptor`, with a new secp256k1 context and with the text of
/// its error.
///
/// Trusted: the outcome depends on the descriptors and the network alone. Descriptors on which
/// the parser aborts are left out; the second one is read only where the first gave a name.
#[verifier::external_body]
fn wallet_name_from_descriptor(
    descriptor: &str,
    change_descriptor: Option<&str>,
    network: Network,
) -> (name: Result<String, String>)
    requires
        readable(descriptor@),
        change_descriptor matches Some(change) ==> (derived_name(descriptor@, None, network) is Ok
            ==> readable(change@)),
    ensures
        outcome_of(name) == derived_name(descriptor@, str_of(change_descriptor), network),
{
    let network = match network {
        Network::Bitcoin => bdk::bitcoin::Network::Bitcoin,
        Network::Testnet => bdk::bitcoin::Network::Testnet,
        Network::Signet => bdk::bitcoin::Network::Signet,
        Network::Regtest => bdk::bitcoin::Network::Regtest,
    };
    let secp = bdk::bitcoin::secp256k1::Secp256k1::new();
    bdk::wallet::wallet_name_from_descriptor(descriptor, change_descriptor, network, &secp).map_err(
        |e| e.to_string(),
    )
}

impl WalletOpts {
    /// The name derived from the descriptors of the wallet.
    pub open spec fn derived_name(self, network: Network) -> Result<Seq<char>, Seq<char>> {
        derived_name(self.descriptor@, text_of(self.change_descriptor), network)
    }

    /// Whether reading the descriptors of the wallet for a name comes to an end, good or bad:
    /// the one for change is read only where the other gave a name.
    pub open spec fn readable(self, network: Network) -> bool {
        &&& readable(self.descriptor@)
        &&& self.change_descriptor matches Some(change) ==> (derived_name(
            self.descriptor@,
            None,
            network,
        ) is Ok ==> readable(change@))
    }

    /// Whether reading the descriptors of the wallet for a name comes to an end, good or bad.
    pub fn is_readable(&self, network: Network) -> (r: bool)
        ensures
            r == self.readable(network),
    {
        if !is_readable(self.descriptor.as_str()) {
            return false;
        }
        match &self.change_descriptor {
            Some(change) => match wallet_name_from_descriptor(
                self.descriptor.as_str(),
                None,
                network,
            ) {
                Ok(_) => is_readable(change.as_str()),
                Err(_) => true,
            },
            None => true,
        }
    }

    /// Whether the wallet has a name, or descriptors that can be read for one.
    pub open spec fn nameable(self, network: Network) -> bool {
        self.wallet is None ==> self.readable(network)
    }

    /// Whether the wallet has a name, or descriptors that can be read for one.
    pub fn is_nameable(&self, network: Network) -> (r: bool)
        ensures
            r == self.nameable(network),
    {
        self.wallet.is_some() || self.is_readable(network)
    }
}

impl<N, F, K> CliSubCommand<N, F, K> {
    /// Whether the wallet of the command has a name, or descriptors that can be read for one.
    pub open spec fn nameable(self, network: Network) -> bool {
        match self {
            CliSubCommand::Wallet { wallet_opts, .. } => wallet_opts.nameable(network),
            CliSubCommand::Repl { wallet_opts } => wallet_opts.nameable(network),
            _ => true,
        }
    }

    /// Whether the wallet of the command has a name, or descriptors that can be read for one.
    pub fn is_nameable(&self, network: Network) -> (r: bool)
        ensures
            r == self.nameable(network),
    {
        match self {
            CliSubCommand::Wallet { wallet_opts, .. } => wallet_opts.is_nameable(network),
            CliSubCommand::Repl { wallet_opts } => wallet_opts.is_nameable(network),
            _ => true,
        }
    }
}

/// The name derived from the descriptors of a wallet.
pub fn descriptor_wallet_name(wallet_opts: &WalletOpts, network: Network) -> (name: Result<
    String,
    Error,
>)
    requires
        wallet_opts.readable(network),
    ensures
        worded(wallet_opts.derived_name(network), name),
{
    let change: Option<&str> = match &wallet_opts.change_descriptor {
        Some(change) => Some(change.as_str()),
        None => None,
    };
    outcome(wallet_name_from_descriptor(wallet_opts.descriptor.as_str(), change, network))
}

/// What naming a wallet comes to: a name that was given stays, else the derived one is put in
/// its place; nothing else changes.
pub open spec fn named(
    before: WalletOpts,
    network: Network,
    after: Result<WalletOpts, Error>,
) -> bool {
    if before.wallet is Some {
        after == Ok::<WalletOpts, Error>(before)
    } else {
        match before.derived_name(network) {
            Ok(name) => {
                &&& after matches Ok(opts)
                &&& text_of(opts.wallet) == Some(name)
                &&& opts == WalletOpts { wallet: opts.wallet, ..before }
            },
            Err(text) => after matches Err(e) && e@ == ErrorView::Other(text),
        }
    }
}

/// Puts a name into the options of a wallet.
pub fn with_wallet_name(wallet_opts: WalletOpts, name: Result<String, Error>) -> (r: Result<
    WalletOpts,
    Error,
>)
    ensures
        match name {
            Ok(n) => r == Ok::<WalletOpts, Error>(WalletOpts { wallet: Some(n), ..wallet_opts }),
            Err(e) => r == Err::<WalletOpts, Error>(e),
        },
{
    match name {
        Ok(n) => {
            let mut wallet_opts = wallet_opts;
            wallet_opts.wallet = Some(n);
            Ok(wallet_opts)
        },
        Err(e) => Err(e),
    }
}

/// Gives a wallet without a name the one derived from its descriptors.
pub fn maybe_descriptor_wallet_name(wallet_opts: WalletOpts, network: Network) -> (r: Result<
    WalletOpts,
    Error,
>)
    requires
        wallet_opts.nameable(network),
    ensures
        named(wallet_opts, network, r),
{
    if wallet_opts.wallet.is_some() {
        return Ok(wallet_opts);
    }
    let name = descriptor_wallet_name(&wallet_opts, network);
    with_wallet_name(wallet_opts, name)
}

// ---------------------------------------------------------------------------------------------
// Laws
// ---------------------------------------------------------------------------------------------

/// A wallet that was named has a name, and naming it again changes nothing.
pub proof fn law_naming_is_idempotent(
    before: WalletOpts,
    network: Network,
    once: WalletOpts,
    other: Network,
    twice: Result<WalletOpts, Error>,
)
    requires
        named(before, network, Ok(once)),
        named(once, other, twice),
    ensures
        once.wallet is Some,
        twice == Ok::<WalletOpts, Error>(once),
{
}

/// The derived name follows from the descriptors and the network: two wallets without a name
/// that agree in them get the same name, or the same refusal, whatever their other options.
pub proof fn law_name_follows_descriptors(
    a: WalletOpts,
    b: WalletOpts,
    network: Network,
    named_a: Result<WalletOpts, Error>,
    named_b: Result<WalletOpts, Error>,
)
    requires
        a.wallet is None,
        b.wallet is None,
        a.descriptor@ == b.descriptor@,
        text_of(a.change_descriptor) == text_of(b.change_descriptor),
        named(a, network, named_a),
        named(b, network, named_b),
    ensures
        named_a is Ok <==> named_b is Ok,
        named_a is Ok ==> text_of(named_a->Ok_0.wallet) == text_of(named_b->Ok_0.wallet),
        named_a is Err ==> named_a->Err_0@ == named_b->Err_0@,
{
}

} // verus!
