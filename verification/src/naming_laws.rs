//! What holds of every name that a wallet gets, option by option.
use vstd::prelude::*;

use crate::blockchain_laws::change_text;
use crate::error::Error;
use crate::naming::{derived_name, named};
use crate::opts::{Network, WalletOpts};

verus! {

/// Whether two wallets have the same options but for their names.
pub open spec fn same_but_for_name(a: WalletOpts, b: WalletOpts) -> bool {
    &&& a.descriptor == b.descriptor
    &&& a.change_descriptor == b.change_descriptor
    &&& a.verbose == b.verbose
    &&& a.electrum_opts.server == b.electrum_opts.server
    &&& a.electrum_opts.timeout == b.electrum_opts.timeout
    &&& a.electrum_opts.stop_gap == b.electrum_opts.stop_gap
    &&& a.esplora_opts.server == b.esplora_opts.server
    &&& a.esplora_opts.timeout == b.esplora_opts.timeout
    &&& a.esplora_opts.conc == b.esplora_opts.conc
    &&& a.esplora_opts.stop_gap == b.esplora_opts.stop_gap
    &&& a.compactfilter_opts.address@ == b.compactfilter_opts.address@
    &&& a.compactfilter_opts.conn_count == b.compactfilter_opts.conn_count
    &&& a.compactfilter_opts.skip_blocks == b.compactfilter_opts.skip_blocks
    &&& a.rpc_opts.address == b.rpc_opts.address
    &&& a.rpc_opts.basic_auth == b.rpc_opts.basic_auth
    &&& a.rpc_opts.cookie == b.rpc_opts.cookie
    &&& a.rpc_opts.skip_blocks == b.rpc_opts.skip_blocks
    &&& a.proxy_opts.proxy == b.proxy_opts.proxy
    &&& a.proxy_opts.proxy_auth == b.proxy_opts.proxy_auth
    &&& a.proxy_opts.retries == b.proxy_opts.retries
}

/// Options are the same as others exactly where each of them is.
pub proof fn law_same_options_agree_in_each(a: WalletOpts, b: WalletOpts)
    ensures
        a.same_as(b) <==> a.wallet == b.wallet && same_but_for_name(a, b),
{
}

/// Naming keeps a name that was given. A wallet without one gets the name that its descriptors,
/// the one for change included, give on the network, and no other option changes; where they
/// give none, how the wallet library words that is the failure.
pub proof fn law_naming_takes_the_derived_name(
    before: WalletOpts,
    network: Network,
    after: Result<WalletOpts, Error>,
)
    requires
        named(before, network, after),
    ensures
        after is Ok <==> before.wallet is Some || derived_name(
            before.descriptor@,
            change_text(before),
            network,
        ) is Ok,
        before.wallet is Some ==> after->Ok_0.wallet == before.wallet,
        after is Ok && before.wallet is None ==> after->Ok_0.wallet is Some && derived_name(
            before.descriptor@,
            change_text(before),
            network,
        ) == Ok::<Seq<char>, Seq<char>>(after->Ok_0.wallet->0@),
        after is Ok ==> same_but_for_name(after->Ok_0, before),
        after is Err ==> after->Err_0 is Other && derived_name(
            before.descriptor@,
            change_text(before),
            network,
        ) == Err::<Seq<char>, Seq<char>>(after->Err_0->Other_0@),
{
}

} // verus!
