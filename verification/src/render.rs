//! The text that the program answers with.
use vstd::prelude::*;

use crate::error::{outcome, worded, Error, ErrorView};
use crate::opts::Network;
use crate::text::outcome_of;

verus! {

/// A JSON value, as the commands return it.
#[verifier::external_type_specification]
#[verifier::external_body]
pub struct ExJsonValue(serde_json::Value);

/// A JSON value as indented text, or how the wallet library words the failure to write it.
pub uninterp spec fn pretty_json(value: serde_json::Value) -> Result<Seq<char>, Seq<char>>;

/// `serde_json::to_string_pretty`, with its error as `bdk::Error` words it.
///
/// Trusted: the outcome depends on the value alone. What the text looks like is left unsaid.
#[verifier::external_body]
fn to_string_pretty(value: &serde_json::Value) -> (text: Result<String, String>)
    ensures
        outcome_of(text) == pretty_json(*value),
{
    serde_json::to_string_pretty(value).map_err(|e| bdk::Error::from(e).to_string())
}

/// Whether `answer` is what is printed for what a command returned.
pub open spec fn rendered(
    output: Result<serde_json::Value, Error>,
    answer: Result<String, Error>,
) -> bool {
    match output {
        Ok(value) => worded(pretty_json(value), answer),
        Err(e) => answer == Err::<String, Error>(e),
    }
}

/// The text to print for what a command returned.
pub fn render(output: Result<serde_json::Value, Error>) -> (answer: Result<String, Error>)
    ensures
        rendered(output, answer),
{
    match output {
        Ok(value) => outcome(to_string_pretty(&value)),
        Err(e) => Err(e),
    }
}

// ---------------------------------------------------------------------------------------------
// Warnings and failures
// ---------------------------------------------------------------------------------------------

/// The warning against the main network.
pub const MAINNET_WARNING: &'static str =
    "This is experimental software and not currently recommended for use on Bitcoin mainnet, proceed with caution.";

/// The report of a node of the program's own on a network that is not its own.
pub const REGTEST_NETWORK_ERROR: &'static str =
    "Do not override default network value for `regtest-node` features";

/// The report of a descriptor that does not belong to the stored wallet.
pub const CHECKSUM_MISMATCH_ERROR: &'static str =
    "Descriptor checksum mismatch. Are you using a different descriptor for an already defined wallet name? (if you are not specifying the wallet name it is automatically named based on the descriptor)";

/// Whether `warning` is what to warn of on a network.
pub open spec fn warns_of(network: Network, warning: Option<String>) -> bool {
    match warning {
        Some(text) => network == Network::Bitcoin && text@ == MAINNET_WARNING@,
        None => network != Network::Bitcoin,
    }
}

/// What to warn of before anything is done on a network.
pub fn network_warning(network: Network) -> (warning: Option<String>)
    ensures
        warns_of(network, warning),
{
    if network == Network::Bitcoin {
        Some(MAINNET_WARNING.to_string())
    } else {
        None
    }
}

/// Whether `error` is what to report of a node of the program's own on a network.
pub open spec fn reports_network(network: Network, error: Option<String>) -> bool {
    match error {
        Some(text) => network != Network::Regtest && text@ == REGTEST_NETWORK_ERROR@,
        None => network == Network::Regtest,
    }
}

/// What to report where the program starts a node of its own, which lives on a test network of
/// its own.
pub fn node_network_error(network: Network) -> (error: Option<String>)
    ensures
        reports_network(network, error),
{
    if network != Network::Regtest {
        Some(REGTEST_NETWORK_ERROR.to_string())
    } else {
        None
    }
}

/// How the wallet library words a failure that it only has a description of.
pub uninterp spec fn generic_text(description: Seq<char>) -> Seq<char>;

/// `ToString::to_string` of a `bdk::Error::Generic`.
///
/// Trusted: the text depends on the description alone. It is the description in the notation of
/// a Rust debug print, which is left unsaid.
#[verifier::external_body]
fn generic_to_string(description: &str) -> (text: String)
    ensures
        text@ == generic_text(description@),
{
    bdk::Error::Generic(description.to_string()).to_string()
}

/// How a failure of the program is reported.
pub open spec fn failure_text(error: ErrorView) -> Seq<char> {
    match error {
        ErrorView::ChecksumMismatch => CHECKSUM_MISMATCH_ERROR@,
        ErrorView::Generic(description) => generic_text(description),
        ErrorView::Other(text) => text,
    }
}

/// How a failure of the program is reported.
pub fn failure_message(error: Error) -> (text: String)
    ensures
        text@ == failure_text(error@),
{
    match error {
        Error::ChecksumMismatch => CHECKSUM_MISMATCH_ERROR.to_string(),
        Error::Generic(description) => generic_to_string(description.as_str()),
        Error::Other(text) => text,
    }
}

// ---------------------------------------------------------------------------------------------
// Laws
// ---------------------------------------------------------------------------------------------

/// A value that a command returned is told as its indented JSON, and nothing but the failure to
/// write that stands in its way; a failure of the command stays what it is.
pub proof fn law_values_are_told_as_json(
    output: Result<serde_json::Value, Error>,
    answer: Result<String, Error>,
)
    requires
        rendered(output, answer),
    ensures
        output is Err ==> answer is Err && answer->Err_0 == output->Err_0,
        output is Ok ==> (answer is Ok <==> pretty_json(output->Ok_0) is Ok),
        output is Ok && answer is Ok ==> answer->Ok_0@ == pretty_json(output->Ok_0)->Ok_0,
        output is Ok && answer is Err ==> answer->Err_0 is Other && answer->Err_0->Other_0@
            == pretty_json(output->Ok_0)->Err_0,
{
}

/// A failure is reported as the wallet library words it; only that of a descriptor that does not
/// belong to the stored wallet has words of its own.
pub proof fn law_failures_are_reported_in_their_words(error: Error)
    ensures
        error is Generic ==> failure_text(error@) == generic_text(error->Generic_0@),
        error is Other ==> failure_text(error@) == error->Other_0@,
        error is ChecksumMismatch ==> failure_text(error@)
            == "Descriptor checksum mismatch. Are you using a different descriptor for an already defined wallet name? (if you are not specifying the wallet name it is automatically named based on the descriptor)"@,
{
}

/// There is a warning of the main network and of no other, and a report of a node of the
/// program's own on every network but its own.
pub proof fn law_networks_are_told_apart(
    network: Network,
    warning: Option<String>,
    error: Option<String>,
)
    requires
        warns_of(network, warning),
        reports_network(network, error),
    ensures
        warning is Some <==> network is Bitcoin,
        warning is Some ==> warning->0@
            == "This is experimental software and not currently recommended for use on Bitcoin mainnet, proceed with caution."@,
        error is None <==> network is Regtest,
        error is Some ==> error->0@
            == "Do not override default network value for `regtest-node` features"@,
{
}

} // verus!
