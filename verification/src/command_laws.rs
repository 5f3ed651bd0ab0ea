//! What every command asks for, value by value: what was given on the command line or typed at
//! the prompt is what is handed on.
use vstd::prelude::*;

use crate::blockchain::{connection, Backend};
use crate::blockchain_laws::change_text;
use crate::descriptor::readable;
use crate::naming::derived_name;
use crate::naming_laws::same_but_for_name;
use crate::opts::{
    CliOpts, CliSubCommand, ElectrumOpts, Features, Network, ReplSubCommand, WalletOpts,
    WalletSubCommand,
};
use crate::render::pretty_json;
use crate::session::{handles, starts, Action, Event, Goal, Phase, Session};
use crate::split::line_words;
use crate::split_laws::{
    arguments, law_split_gives_back_arguments, well_written, written_line, Piece,
};
use crate::text::blank;

verus! {

// ---------------------------------------------------------------------------------------------
// The beginning
// ---------------------------------------------------------------------------------------------

/// A session has the network, the backend and the features that it was started with.
pub proof fn law_session_has_its_setting<N, F, K>(
    cli_opts: CliOpts<N, F, K>,
    network: Network,
    backend: Backend,
    features: Features,
    session: Session<N, F>,
    action: Action<N, F, K>,
)
    requires
        handles(cli_opts, network, backend, features, session, action),
    ensures
        session.network == network,
        session.backend == backend,
        session.features == features,
{
}

/// A command on keys runs on the network that the session was started with, and it is the one
/// that was given.
pub proof fn law_key_command_runs_on_the_network<N, F, K>(
    cli_opts: CliOpts<N, F, K>,
    command: K,
    network: Network,
    backend: Backend,
    features: Features,
    session: Session<N, F>,
    action: Action<N, F, K>,
)
    requires
        cli_opts.subcommand == (CliSubCommand::<N, F, K>::Key { subcommand: command }),
        handles(cli_opts, network, backend, features, session, action),
    ensures
        action is RunKey,
        action->RunKey_network == network,
        action->RunKey_command == command,
        session.phase is Running,
        !session.phase->Running_repl,
{
}

/// A command on keys typed at the prompt runs on the network of the session, and it is the one
/// that was typed.
pub proof fn law_typed_key_command_runs_on_the_network<N, F, K>(
    session: Session<N, F>,
    command: K,
    after: Session<N, F>,
    action: Action<N, F, K>,
)
    requires
        session.steps(Event::Parsed(ReplSubCommand::KeySubCommand(command)), after, action),
    ensures
        action is RunKey,
        action->RunKey_network == session.network,
        action->RunKey_command == command,
        after.phase is Running,
        after.phase->Running_repl,
{
}

/// A policy is compiled as it was given, for the script type that was given, on the network that
/// the session was started with.
pub proof fn law_policy_is_compiled_as_given<N, F, K>(
    cli_opts: CliOpts<N, F, K>,
    policy: String,
    script_type: String,
    network: Network,
    backend: Backend,
    features: Features,
    session: Session<N, F>,
    action: Action<N, F, K>,
)
    requires
        cli_opts.subcommand == (CliSubCommand::<N, F, K>::Compile { policy, script_type }),
        handles(cli_opts, network, backend, features, session, action),
    ensures
        action is Compile,
        action->Compile_network == network,
        action->policy == policy,
        action->script_type == script_type,
        session.phase is Running,
        !session.phase->Running_repl,
{
}

/// A proof of reserves is checked with the message, the proof, the confirmations, the addresses
/// and the server that were given, on the network that the session was started with.
pub proof fn law_reserves_are_checked_as_given<N, F, K>(
    cli_opts: CliOpts<N, F, K>,
    message: String,
    psbt: String,
    confirmations: usize,
    addresses: Vec<String>,
    electrum_opts: ElectrumOpts,
    network: Network,
    backend: Backend,
    features: Features,
    session: Session<N, F>,
    action: Action<N, F, K>,
)
    requires
        cli_opts.subcommand == (CliSubCommand::<N, F, K>::ExternalReserves {
            message,
            psbt,
            confirmations,
            addresses,
            electrum_opts,
        }),
        handles(cli_opts, network, backend, features, session, action),
    ensures
        action is CheckReserves,
        action->CheckReserves_network == network,
        action->message == message,
        action->psbt == psbt,
        action->confirmations == confirmations,
        action->addresses == addresses,
        action->electrum_opts.server == electrum_opts.server,
        action->electrum_opts.timeout == electrum_opts.timeout,
        action->electrum_opts.stop_gap == electrum_opts.stop_gap,
        session.phase is Running,
        !session.phase->Running_repl,
{
}

/// The options and the goal of a command on a wallet, or of the prompt.
pub open spec fn wallet_goal<N, F, K>(subcommand: CliSubCommand<N, F, K>) -> Option<
    (WalletOpts, Goal<N, F>),
> {
    match subcommand {
        CliSubCommand::Wallet {
            wallet_opts,
            subcommand: WalletSubCommand::OnlineWalletSubCommand(command),
        } => Some((wallet_opts, Goal::Online(command))),
        CliSubCommand::Wallet {
            wallet_opts,
            subcommand: WalletSubCommand::OfflineWalletSubCommand(command),
        } => Some((wallet_opts, Goal::Offline(command))),
        CliSubCommand::Repl { wallet_opts } => Some((wallet_opts, Goal::Repl)),
        _ => None,
    }
}

/// A command on a wallet, and the prompt, first open the database of the wallet, for the command
/// that was given: under the name that was given, else under the one that its descriptors give
/// on the network. Every other option is handed on. Where the descriptors give no name, that is
/// the answer, and nothing is opened.
pub proof fn law_wallet_is_opened_under_its_name<N, F, K>(
    cli_opts: CliOpts<N, F, K>,
    opts: WalletOpts,
    goal: Goal<N, F>,
    network: Network,
    backend: Backend,
    features: Features,
    session: Session<N, F>,
    action: Action<N, F, K>,
)
    requires
        wallet_goal(cli_opts.subcommand) == Some((opts, goal)),
        handles(cli_opts, network, backend, features, session, action),
    ensures
        action is OpenDatabase <==> opts.wallet is Some || derived_name(
            opts.descriptor@,
            change_text(opts),
            network,
        ) is Ok,
        action is OpenDatabase ==> session.phase == Phase::<N, F>::Opening(goal)
            && session.wallet_opts is Some && action->OpenDatabase_0.wallet is Some
            && session.wallet_opts->0.wallet == action->OpenDatabase_0.wallet
            && same_but_for_name(action->OpenDatabase_0, opts) && same_but_for_name(
            session.wallet_opts->0,
            opts,
        ),
        action is OpenDatabase && opts.wallet is Some ==> action->OpenDatabase_0.wallet
            == opts.wallet,
        action is OpenDatabase && opts.wallet is None ==> derived_name(
            opts.descriptor@,
            change_text(opts),
            network,
        ) == Ok::<Seq<char>, Seq<char>>(action->OpenDatabase_0.wallet->0@),
        action !is OpenDatabase ==> session.phase is Finished && action is Finish
            && action->Finish_0 is Err && action->Finish_0->Err_0 is Other && derived_name(
            opts.descriptor@,
            change_text(opts),
            network,
        ) == Err::<Seq<char>, Seq<char>>(action->Finish_0->Err_0->Other_0@),
{
}

// ---------------------------------------------------------------------------------------------
// The way to a command
// ---------------------------------------------------------------------------------------------

/// The wallet that is loaded has the descriptors of the session's wallet and lives on the
/// network of the session.
pub proof fn law_wallet_is_loaded_as_given<N, F, K>(
    session: Session<N, F>,
    event: Event<N, F, K>,
    after: Session<N, F>,
    action: Action<N, F, K>,
)
    requires
        session.expects(event),
        session.steps(event, after, action),
        action is LoadWallet,
    ensures
        action->LoadWallet_0.network == session.network,
        action->LoadWallet_0.descriptor == session.wallet_opts->0.descriptor,
        action->LoadWallet_0.change_descriptor == session.wallet_opts->0.change_descriptor,
{
}

/// Once the database is open, the wallet of an offline command or of the prompt is loaded; that
/// of an online command is once the connection is made.
pub proof fn law_wallet_is_loaded_in_time<N, F, K>(
    session: Session<N, F>,
    event: Event<N, F, K>,
    after: Session<N, F>,
    action: Action<N, F, K>,
)
    requires
        session.expects(event),
        session.steps(event, after, action),
        event == Event::<N, F, K>::Opened(Ok(())) || event == Event::<N, F, K>::Connected(Ok(())),
    ensures
        session.phase is Opening && session.phase->Opening_0 !is Online ==> action is LoadWallet
            && after.phase == Phase::<N, F>::Loading(session.phase->Opening_0),
        session.phase is Connecting && !session.phase->Connecting_repl ==> action is LoadWallet
            && after.phase == Phase::<N, F>::Loading(
            Goal::Online(session.phase->Connecting_command),
        ),
        session.phase is Connecting && session.phase->Connecting_repl ==> action
            == Action::<N, F, K>::RunOnline(session.phase->Connecting_command) && after.phase
            is Running && after.phase->Running_repl,
{
}

/// Once the wallet is loaded, the command that it was loaded for is run, an offline one with the
/// options of the wallet, or the first line is read.
pub proof fn law_loaded_wallet_gets_its_command<N, F, K>(
    session: Session<N, F>,
    goal: Goal<N, F>,
    after: Session<N, F>,
    action: Action<N, F, K>,
)
    requires
        session.phase == Phase::<N, F>::Loading(goal),
        session.steps(Event::Loaded(Ok(())), after, action),
    ensures
        goal is Online ==> action == Action::<N, F, K>::RunOnline(goal->Online_0),
        goal is Offline ==> action is RunOffline && action->RunOffline_command == goal->Offline_0
            && action->wallet_opts.wallet == session.wallet_opts->0.wallet && same_but_for_name(
            action->wallet_opts,
            session.wallet_opts->0,
        ),
        goal is Repl ==> action is ReadLine && after.phase is Reading,
        goal !is Repl ==> after.phase is Running && !after.phase->Running_repl,
{
}

/// An offline command typed at the prompt is run as it was typed, with the options of the
/// wallet.
pub proof fn law_typed_offline_command_is_run<N, F, K>(
    session: Session<N, F>,
    command: F,
    after: Session<N, F>,
    action: Action<N, F, K>,
)
    requires
        session.steps(
            Event::Parsed(ReplSubCommand::OfflineWalletSubCommand(command)),
            after,
            action,
        ),
    ensures
        action is RunOffline,
        action->RunOffline_command == command,
        action->wallet_opts.wallet == session.wallet_opts->0.wallet,
        same_but_for_name(action->wallet_opts, session.wallet_opts->0),
        after.phase is Running,
        after.phase->Running_repl,
{
}

/// The online command that an event brings on its way, and whether it was typed.
pub open spec fn online_command<N, F, K>(session: Session<N, F>, event: Event<N, F, K>) -> Option<
    (N, bool),
> {
    match event {
        Event::Opened(Ok(_)) => match session.phase {
            Phase::Opening(Goal::Online(command)) => Some((command, false)),
            _ => None,
        },
        Event::Prepared(_) => match session.phase {
            Phase::Preparing { command, repl } => Some((command, repl)),
            _ => None,
        },
        Event::Parsed(ReplSubCommand::OnlineWalletSubCommand(command)) => Some((command, true)),
        _ => None,
    }
}

/// An online command keeps on its way to a connection: a program with compact filters first
/// prepares their directory; then, or at once without them, the connection is made that the
/// session's features, network, wallet and backend call for, or the reason why it cannot be is
/// the answer.
pub proof fn law_online_command_connects_with_the_setting<N, F, K>(
    session: Session<N, F>,
    event: Event<N, F, K>,
    command: N,
    typed: bool,
    after: Session<N, F>,
    action: Action<N, F, K>,
)
    requires
        session.steps(event, after, action),
        online_command(session, event) == Some((command, typed)),
    ensures
        event !is Prepared && session.features.compact_filters ==> action is PrepareStorage
            && after.phase is Preparing && after.phase->Preparing_command == command
            && after.phase->Preparing_repl == typed,
        event is Prepared || !session.features.compact_filters ==> (action is Connect || (action
            is Finish && action->Finish_0 is Err)),
        action is Connect ==> connection(
            session.features,
            session.network,
            session.wallet_opts->0,
            session.backend,
            if event is Prepared {
                event->Prepared_0
            } else {
                Ok(None)
            },
            Ok(action->Connect_0),
        ) && after.phase is Connecting && after.phase->Connecting_command == command
            && after.phase->Connecting_repl == typed,
        action is Finish ==> connection(
            session.features,
            session.network,
            session.wallet_opts->0,
            session.backend,
            if event is Prepared {
                event->Prepared_0
            } else {
                Ok(None)
            },
            Err(action->Finish_0->Err_0),
        ) && after.phase is Finished,
{
}

// ---------------------------------------------------------------------------------------------
// Texts
// ---------------------------------------------------------------------------------------------

/// A line typed at the prompt that is not blank is remembered and parsed, and all the arguments
/// that it was made of reach the parser, in order, each as it was meant.
pub proof fn law_all_arguments_reach_the_parser<N, F, K>(
    session: Session<N, F>,
    pieces: Seq<Piece>,
    line: String,
    after: Session<N, F>,
    action: Action<N, F, K>,
)
    requires
        well_written(pieces),
        line@ == written_line(pieces),
        !blank(line@),
        session.steps(Event::Line(line), after, action),
    ensures
        after.phase is Parsing,
        action is Parse,
        action->line == line,
        action->words@.len() == arguments(pieces).len(),
        forall|i: int|
            0 <= i < arguments(pieces).len() ==> (#[trigger] action->words@[i])@ == arguments(
                pieces,
            )[i],
{
    law_split_gives_back_arguments(pieces);
    assert forall|i: int| 0 <= i < arguments(pieces).len() implies (#[trigger] action->words@[i])@
        == arguments(pieces)[i] by {
        assert(line_words(line@)[i] == action->words@[i]@);
    }
}

/// Any other line that is not blank is remembered and parsed too, word by word.
pub proof fn law_line_is_parsed_word_by_word<N, F, K>(
    session: Session<N, F>,
    line: String,
    after: Session<N, F>,
    action: Action<N, F, K>,
)
    requires
        !blank(line@),
        session.steps(Event::Line(line), after, action),
    ensures
        after.phase is Parsing,
        action is Parse,
        action->line == line,
        action->words@.len() == line_words(line@).len(),
        forall|i: int|
            0 <= i < line_words(line@).len() ==> (#[trigger] action->words@[i])@ == line_words(
                line@,
            )[i],
{
    assert forall|i: int| 0 <= i < line_words(line@).len() implies (#[trigger] action->words@[i])@
        == line_words(line@)[i] by {
        assert(line_words(line@)[i] == action->words@[i]@);
    }
}

/// What is told of words that are no command, and of a line that could not be read, is printed
/// as it is told; after the latter nothing more is read.
pub proof fn law_told_texts_are_printed<N, F, K>(
    session: Session<N, F>,
    text: String,
    after: Session<N, F>,
    action: Action<N, F, K>,
    last: bool,
)
    requires
        last ==> session.steps(Event::ReadFailed(text), after, action),
        !last ==> session.steps(Event::ParseFailed(text), after, action),
    ensures
        action == Action::<N, F, K>::Print(text),
        after.phase is Printing,
        after.phase->last == last,
{
}

/// The prompt is left, with the same words, at the command to exit, at the end of the input, and
/// after the last text is printed; after any other text the next line is read.
pub proof fn law_prompt_is_left_when_it_must_be<N, F, K>(
    session: Session<N, F>,
    event: Event<N, F, K>,
    after: Session<N, F>,
    action: Action<N, F, K>,
)
    requires
        session.expects(event),
        session.steps(event, after, action),
    ensures
        event is Eof || event == Event::<N, F, K>::Parsed(ReplSubCommand::Exit) || (event
            is Printed && session.phase->last) ==> after.phase is Finished && action is Finish
            && action->Finish_0 is Ok && action->Finish_0->Ok_0@ == "Exiting REPL"@,
        event is Printed && !session.phase->last ==> after.phase is Reading && action is ReadLine,
        event is Interrupted ==> after.phase is Reading && action is ReadLine,
{
}

/// What a command returned is told as indented JSON: it is the answer of a session with one
/// command, and is printed at the prompt, which then goes on. A failure to write it is the
/// answer.
pub proof fn law_output_is_told_as_json<N, F, K>(
    session: Session<N, F>,
    value: serde_json::Value,
    after: Session<N, F>,
    action: Action<N, F, K>,
)
    requires
        session.phase is Running,
        session.steps(Event::Output(Ok(value)), after, action),
    ensures
        pretty_json(value) is Ok && session.phase->Running_repl ==> action is Print
            && action->Print_0@ == pretty_json(value)->Ok_0 && after.phase is Printing
            && !after.phase->last,
        pretty_json(value) is Ok && !session.phase->Running_repl ==> action is Finish
            && action->Finish_0 is Ok && action->Finish_0->Ok_0@ == pretty_json(value)->Ok_0
            && after.phase is Finished,
        pretty_json(value) is Err ==> action is Finish && action->Finish_0 is Err
            && action->Finish_0->Err_0 is Other && action->Finish_0->Err_0->Other_0@
            == pretty_json(value)->Err_0 && after.phase is Finished,
{
}

// ---------------------------------------------------------------------------------------------
// Events
// ---------------------------------------------------------------------------------------------

/// In each phase those events come, and only those, that tell what came of the action before it.
pub proof fn law_each_phase_has_its_events<N, F, K>(session: Session<N, F>, event: Event<N, F, K>)
    ensures
        session.phase is Opening ==> (session.expects(event) <==> event is Opened),
        session.phase is Preparing ==> (session.expects(event) <==> event is Prepared),
        session.phase is Connecting ==> (session.expects(event) <==> event is Connected),
        session.phase is Loading ==> (session.expects(event) <==> event is Loaded),
        session.phase is Running ==> (session.expects(event) <==> event is Output),
        session.phase is Reading ==> (session.expects(event) <==> event is Line || event
            is Interrupted || event is Eof || event is ReadFailed),
        session.phase is Printing ==> (session.expects(event) <==> event is Printed),
        session.phase is Finished ==> !session.expects(event),
        session.phase is Parsing ==> (session.expects(event) <==> event is ParseFailed || (event
            is Parsed && (event->Parsed_0 is OnlineWalletSubCommand ==> session.features.electrum
            || session.features.esplora || session.features.compact_filters
            || session.features.rpc))),
{
}

/// A program has a command exactly where it was built with what the command needs.
pub proof fn law_command_needs_its_features<N, F, K>(
    subcommand: CliSubCommand<N, F, K>,
    features: Features,
)
    ensures
        subcommand is Key ==> subcommand.available(features),
        subcommand is Compile ==> (subcommand.available(features) <==> features.compiler),
        subcommand is Repl ==> (subcommand.available(features) <==> features.repl),
        subcommand is ExternalReserves ==> (subcommand.available(features) <==> features.reserves
            && features.electrum),
        subcommand is Wallet && subcommand->Wallet_subcommand is OfflineWalletSubCommand
            ==> subcommand.available(features),
        subcommand is Wallet && subcommand->Wallet_subcommand is OnlineWalletSubCommand ==> (
        subcommand.available(features) <==> features.electrum || features.esplora
            || features.compact_filters || features.rpc),
{
}

/// A session starts exactly where the program has the command and the descriptors of its wallet
/// can be read for a name where they must be; it then starts as the command line says.
pub proof fn law_session_starts_where_it_can<N, F, K>(
    cli_opts: CliOpts<N, F, K>,
    network: Network,
    backend: Backend,
    features: Features,
    begun: Option<(Session<N, F>, Action<N, F, K>)>,
)
    requires
        starts(cli_opts, network, backend, features, begun),
    ensures
        begun is Some <==> cli_opts.subcommand.available(features) && (wallet_goal(
            cli_opts.subcommand,
        ) is Some && (wallet_goal(cli_opts.subcommand)->0).0.wallet is None ==> (wallet_goal(
            cli_opts.subcommand,
        )->0).0.readable(network)),
        begun is Some ==> handles(
            cli_opts,
            network,
            backend,
            features,
            (begun->0).0,
            (begun->0).1,
        ),
{
}

/// A session goes on exactly where the event can come and the descriptors of its wallet can be
/// read where a node is to be asked for the wallet; it then goes on as the event says, and keeps
/// its network, backend, features and wallet.
pub proof fn law_session_goes_on_where_it_can<N, F, K>(
    session: Session<N, F>,
    event: Event<N, F, K>,
    next: Option<(Session<N, F>, Action<N, F, K>)>,
)
    requires
        session.advances(event, next),
    ensures
        next is Some ==> session.expects(event) && session.steps(event, (next->0).0, (next->0).1),
        next is Some ==> (next->0).0.network == session.network,
        next is Some ==> (next->0).0.backend == session.backend,
        next is Some ==> (next->0).0.features == session.features,
        next is Some ==> (next->0).0.wallet_opts == session.wallet_opts,
        next is None && session.expects(event) ==> session.features.rpc && online_command(
            session,
            event,
        ) is Some && !session.wallet_opts->0.readable(session.network),
        session.expects(event) && session.features.rpc && !session.features.compact_filters
            && online_command(session, event) is Some && event !is Prepared
            && !session.wallet_opts->0.readable(session.network) ==> next is None,
        session.expects(event) && session.features.rpc && event is Prepared
            && event->Prepared_0 is Ok && event->Prepared_0->Ok_0 is Some
            && !session.wallet_opts->0.readable(session.network) ==> next is None,
{
}

/// The descriptors of a wallet can be read where the first can be and, only where that one gives
/// a name on the network, the one for change can be too.
pub proof fn law_descriptors_are_read_in_turn(opts: WalletOpts, network: Network)
    ensures
        opts.readable(network) <==> readable(opts.descriptor@) && (opts.change_descriptor is None
            || derived_name(opts.descriptor@, None, network) is Err || readable(
            opts.change_descriptor->0@,
        )),
{
}

} // verus!
