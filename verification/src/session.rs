//! The course of a command.
//!
//! A [`Session`] says what to do next and is told what came of it, until it is finished. It
//! decides; the program around it opens databases, makes connections, runs the commands on
//! wallets and keys, reads lines and prints.
use vstd::pervasive::unreached;
use vstd::prelude::*;

use crate::blockchain::{connection, derives_name, new_blockchain, Backend, BlockchainConfig};
use crate::error::Error;
use crate::naming::{maybe_descriptor_wallet_name, named};
use crate::opts::{
    CliOpts, CliSubCommand, ElectrumOpts, Features, Network, ReplSubCommand, WalletOpts,
    WalletSubCommand,
};
use crate::render::{render, rendered};
use crate::split::{line_words, split_line};
use crate::text::{blank, copy_text, is_blank, texts_of};

verus! {

/// What a wallet is opened for.
#[derive(Debug, PartialEq, Eq)]
pub enum Goal<N, F> {
    /// One command that needs a blockchain.
    Online(N),
    /// One command that does not.
    Offline(F),
    /// Commands typed at the prompt.
    Repl,
}

/// How far a session has come. `repl` tells whether the command was typed at the prompt.
#[derive(Debug, PartialEq, Eq)]
pub enum Phase<N, F> {
    /// The database is being opened.
    Opening(Goal<N, F>),
    /// The directory for compact filters is being prepared.
    Preparing { command: N, repl: bool },
    /// The connection to the blockchain is being made.
    Connecting { command: N, repl: bool },
    /// The wallet is being loaded.
    Loading(Goal<N, F>),
    /// A command is running.
    Running { repl: bool },
    /// A line is being read.
    Reading,
    /// The words of a line are being parsed.
    Parsing,
    /// A text is being printed; `last` tells whether nothing follows it.
    Printing { last: bool },
    /// Nothing is left to do.
    Finished,
}

/// A command on its way.
#[derive(Debug, PartialEq, Eq)]
pub struct Session<N, F> {
    pub features: Features,
    pub network: Network,
    pub backend: Backend,
    /// The options of the wallet, where there is one.
    pub wallet_opts: Option<WalletOpts>,
    pub phase: Phase<N, F>,
}

/// The wallet to load from the open database.
#[derive(Debug, PartialEq, Eq)]
pub struct WalletRequest {
    pub descriptor: String,
    pub change_descriptor: Option<String>,
    pub network: Network,
}

/// What to do next.
#[allow(inconsistent_fields)]
#[derive(Debug, PartialEq, Eq)]
pub enum Action<N, F, K> {
    /// Open the database of the wallet with these options.
    OpenDatabase(WalletOpts),
    /// Prepare the directory for compact filters.
    PrepareStorage,
    /// Connect to a blockchain.
    Connect(BlockchainConfig),
    /// Load the wallet.
    LoadWallet(WalletRequest),
    /// Run a command with the wallet and the blockchain.
    RunOnline(N),
    /// Run a command with the wallet and its options.
    RunOffline { command: F, wallet_opts: WalletOpts },
    /// Run a command on keys.
    RunKey { network: Network, command: K },
    /// Compile a spending policy.
    Compile { network: Network, policy: String, script_type: String },
    /// Check a proof of reserves.
    CheckReserves {
        network: Network,
        message: String,
        psbt: String,
        confirmations: usize,
        addresses: Vec<String>,
        electrum_opts: ElectrumOpts,
    },
    /// Read a line.
    ReadLine,
    /// Remember a line, and parse its words.
    Parse { line: String, words: Vec<String> },
    /// Print a text.
    Print(String),
    /// Answer with a text, or with a failure.
    Finish(Result<String, Error>),
}

/// What came of an action.
#[derive(Debug, PartialEq, Eq)]
pub enum Event<N, F, K> {
    Opened(Result<(), Error>),
    /// The directory for compact filters, `None` where its name is not Unicode.
    Prepared(Result<Option<String>, Error>),
    Connected(Result<(), Error>),
    Loaded(Result<(), Error>),
    /// What a command returned.
    Output(Result<serde_json::Value, Error>),
    Line(String),
    /// The user interrupted the line.
    Interrupted,
    /// The input has ended.
    Eof,
    /// The line could not be read, for the reason given.
    ReadFailed(String),
    Parsed(ReplSubCommand<N, F, K>),
    /// The words are no command, for the reason given.
    ParseFailed(String),
    Printed,
}

// ---------------------------------------------------------------------------------------------
// The rules
// ---------------------------------------------------------------------------------------------

/// The wallet to load.
pub open spec fn wallet_request(opts: WalletOpts, network: Network) -> WalletRequest {
    WalletRequest {
        descriptor: opts.descriptor,
        change_descriptor: opts.change_descriptor,
        network,
    }
}

impl<N, F> Session<N, F> {
    /// The same session in another phase.
    pub open spec fn at(self, phase: Phase<N, F>) -> Session<N, F> {
        Session { phase, ..self }
    }

    /// Whether the session has a wallet with a name.
    pub open spec fn has_wallet(self) -> bool {
        self.wallet_opts matches Some(opts) && opts.wallet is Some
    }

    /// Whether the session holds what its phase needs.
    pub open spec fn wf(self) -> bool {
        match self.phase {
            Phase::Opening(goal) => self.has_wallet() && (goal is Online ==> self.features.online()),
            Phase::Preparing { .. } => self.has_wallet() && self.features.compact_filters,
            Phase::Connecting { .. } => self.has_wallet() && self.features.online(),
            Phase::Loading(goal) => self.has_wallet(),
            Phase::Running { repl } => repl ==> self.has_wallet(),
            Phase::Reading => self.has_wallet(),
            Phase::Parsing => self.has_wallet(),
            Phase::Printing { .. } => self.has_wallet(),
            Phase::Finished => true,
        }
    }

    /// Whether an event can come in the phase of the session.
    pub open spec fn expects<K>(self, event: Event<N, F, K>) -> bool {
        match event {
            Event::Opened(_) => self.phase is Opening,
            Event::Prepared(_) => self.phase is Preparing,
            Event::Connected(_) => self.phase is Connecting,
            Event::Loaded(_) => self.phase is Loading,
            Event::Output(_) => self.phase is Running,
            Event::Line(_) => self.phase is Reading,
            Event::Interrupted => self.phase is Reading,
            Event::Eof => self.phase is Reading,
            Event::ReadFailed(_) => self.phase is Reading,
            Event::Parsed(command) => self.phase is Parsing && (command is OnlineWalletSubCommand
                ==> self.features.online()),
            Event::ParseFailed(_) => self.phase is Parsing,
            Event::Printed => self.phase is Printing,
        }
    }

    /// Whether a connection that takes the name derived from the descriptors follows an event.
    pub open spec fn derives_name<K>(self, event: Event<N, F, K>) -> bool {
        match event {
            Event::Opened(Ok(_)) => self.phase matches Phase::Opening(Goal::Online(_))
                && !self.features.compact_filters && derives_name(self.features, Ok(None)),
            Event::Prepared(storage_dir) => derives_name(self.features, storage_dir),
            Event::Parsed(ReplSubCommand::OnlineWalletSubCommand(_)) =>
                !self.features.compact_filters && derives_name(self.features, Ok(None)),
            _ => false,
        }
    }

    /// Whether the descriptors of the wallet can be read where an event has them read.
    pub open spec fn can_read_for<K>(self, event: Event<N, F, K>) -> bool {
        self.derives_name(event) ==> self.wallet_opts->0.readable(self.network)
    }

    /// The session ends with a failure.
    pub open spec fn fails<K>(
        self,
        error: Error,
        after: Session<N, F>,
        action: Action<N, F, K>,
    ) -> bool {
        after == self.at(Phase::Finished) && action == Action::<N, F, K>::Finish(Err(error))
    }

    /// The session at the prompt ends without a failure.
    pub open spec fn exits<K>(self, after: Session<N, F>, action: Action<N, F, K>) -> bool {
        &&& after == self.at(Phase::Finished)
        &&& action matches Action::Finish(Ok(text)) && text@ == "Exiting REPL"@
    }

    /// The next line is read.
    pub open spec fn reads<K>(self, after: Session<N, F>, action: Action<N, F, K>) -> bool {
        after == self.at(Phase::Reading) && action == Action::<N, F, K>::ReadLine
    }

    /// The connection is made, or the reason why it cannot be is the answer.
    pub open spec fn connects<K>(
        self,
        command: N,
        repl: bool,
        storage_dir: Result<Option<String>, Error>,
        after: Session<N, F>,
        action: Action<N, F, K>,
    ) -> bool {
        match action {
            Action::Connect(config) => connection(
                self.features,
                self.network,
                self.wallet_opts->0,
                self.backend,
                storage_dir,
                Ok(config),
            ) && after == self.at(Phase::Connecting { command, repl }),
            Action::Finish(Err(e)) => connection(
                self.features,
                self.network,
                self.wallet_opts->0,
                self.backend,
                storage_dir,
                Err(e),
            ) && after == self.at(Phase::Finished),
            _ => false,
        }
    }

    /// The way to a connection starts: compact filters first need their directory.
    pub open spec fn goes_online<K>(
        self,
        command: N,
        repl: bool,
        after: Session<N, F>,
        action: Action<N, F, K>,
    ) -> bool {
        if self.features.compact_filters {
            after == self.at(Phase::Preparing { command, repl }) && action == Action::<
                N,
                F,
                K,
            >::PrepareStorage
        } else {
            self.connects(command, repl, Ok(None), after, action)
        }
    }

    /// The wallet is loaded.
    pub open spec fn loads<K>(
        self,
        goal: Goal<N, F>,
        after: Session<N, F>,
        action: Action<N, F, K>,
    ) -> bool {
        after == self.at(Phase::Loading(goal)) && action == Action::<N, F, K>::LoadWallet(
            wallet_request(self.wallet_opts->0, self.network),
        )
    }

    /// A command is run.
    pub open spec fn runs<K>(
        self,
        repl: bool,
        command: Action<N, F, K>,
        after: Session<N, F>,
        action: Action<N, F, K>,
    ) -> bool {
        after == self.at(Phase::Running { repl }) && action == command
    }

    /// A command that needs no blockchain is run, with the options of the wallet.
    pub open spec fn runs_offline<K>(
        self,
        repl: bool,
        command: F,
        after: Session<N, F>,
        action: Action<N, F, K>,
    ) -> bool {
        &&& after == self.at(Phase::Running { repl })
        &&& action matches Action::RunOffline { command: c, wallet_opts } && c == command
            && wallet_opts.same_as(self.wallet_opts->0)
    }

    /// A text is printed.
    pub open spec fn prints<K>(
        self,
        text: String,
        last: bool,
        after: Session<N, F>,
        action: Action<N, F, K>,
    ) -> bool {
        after == self.at(Phase::Printing { last }) && action == Action::<N, F, K>::Print(text)
    }

    /// What a command returned is the answer of a session with one command, and is printed at
    /// the prompt; a failure ends the session in either case.
    pub open spec fn answers<K>(
        self,
        repl: bool,
        output: Result<serde_json::Value, Error>,
        after: Session<N, F>,
        action: Action<N, F, K>,
    ) -> bool {
        match action {
            Action::Print(text) => {
                &&& repl
                &&& rendered(output, Ok(text))
                &&& after == self.at(Phase::Printing { last: false })
            },
            Action::Finish(outcome) => {
                &&& repl ==> outcome is Err
                &&& rendered(output, outcome)
                &&& after == self.at(Phase::Finished)
            },
            _ => false,
        }
    }

    /// A line of white space is passed over; any other is remembered, and its words are parsed.
    pub open spec fn takes_line<K>(
        self,
        line: String,
        after: Session<N, F>,
        action: Action<N, F, K>,
    ) -> bool {
        if blank(line@) {
            self.reads(after, action)
        } else {
            &&& after == self.at(Phase::Parsing)
            &&& action matches Action::Parse { line: l, words } && l == line && texts_of(words@)
                == line_words(line@)
        }
    }

    /// Whether `next` is what follows an event, unless it cannot come now, or reading the
    /// descriptors of the wallet for it would abort the program.
    pub open spec fn advances<K>(
        self,
        event: Event<N, F, K>,
        next: Option<(Session<N, F>, Action<N, F, K>)>,
    ) -> bool {
        match next {
            Some((after, action)) => {
                &&& self.expects(event)
                &&& self.can_read_for(event)
                &&& after.wf()
                &&& self.steps(event, after, action)
            },
            None => !self.expects(event) || !self.can_read_for(event),
        }
    }

    /// What follows an event: the session after it and the next thing to do.
    pub open spec fn steps<K>(
        self,
        event: Event<N, F, K>,
        after: Session<N, F>,
        action: Action<N, F, K>,
    ) -> bool {
        match event {
            Event::Opened(Err(e)) => self.fails(e, after, action),
            Event::Opened(Ok(_)) => match self.phase->Opening_0 {
                Goal::Online(command) => self.goes_online(command, false, after, action),
                goal => self.loads(goal, after, action),
            },
            Event::Prepared(storage_dir) => self.connects(
                self.phase->Preparing_command,
                self.phase->Preparing_repl,
                storage_dir,
                after,
                action,
            ),
            Event::Connected(Err(e)) => self.fails(e, after, action),
            Event::Connected(Ok(_)) => if self.phase->Connecting_repl {
                self.runs(
                    true,
                    Action::RunOnline(self.phase->Connecting_command),
                    after,
                    action,
                )
            } else {
                self.loads(Goal::Online(self.phase->Connecting_command), after, action)
            },
            Event::Loaded(Err(e)) => self.fails(e, after, action),
            Event::Loaded(Ok(_)) => match self.phase->Loading_0 {
                Goal::Online(command) => self.runs(
                    false,
                    Action::RunOnline(command),
                    after,
                    action,
                ),
                Goal::Offline(command) => self.runs_offline(false, command, after, action),
                Goal::Repl => self.reads(after, action),
            },
            Event::Output(output) => self.answers(
                self.phase->Running_repl,
                output,
                after,
                action,
            ),
            Event::Line(line) => self.takes_line(line, after, action),
            Event::Interrupted => self.reads(after, action),
            Event::Eof => self.exits(after, action),
            Event::ReadFailed(text) => self.prints(text, true, after, action),
            Event::Parsed(ReplSubCommand::OnlineWalletSubCommand(command)) => self.goes_online(
                command,
                true,
                after,
                action,
            ),
            Event::Parsed(ReplSubCommand::OfflineWalletSubCommand(command)) => self.runs_offline(
                true,
                command,
                after,
                action,
            ),
            Event::Parsed(ReplSubCommand::KeySubCommand(command)) => self.runs(
                true,
                Action::RunKey { network: self.network, command },
                after,
                action,
            ),
            Event::Parsed(ReplSubCommand::Exit) => self.exits(after, action),
            Event::ParseFailed(text) => self.prints(text, false, after, action),
            Event::Printed => if self.phase->Printing_last {
                self.exits(after, action)
            } else {
                self.reads(after, action)
            },
        }
    }
}

/// A session with a wallet begins: the wallet is named, then its database is opened.
pub open spec fn opens<N, F, K>(
    start: Session<N, F>,
    wallet_opts: WalletOpts,
    goal: Goal<N, F>,
    session: Session<N, F>,
    action: Action<N, F, K>,
) -> bool {
    match action {
        Action::OpenDatabase(given) => {
            &&& session.wallet_opts matches Some(opts)
            &&& named(wallet_opts, start.network, Ok(opts))
            &&& given.same_as(opts)
            &&& session == Session { wallet_opts: Some(opts), ..start.at(Phase::Opening(goal)) }
        },
        Action::Finish(Err(e)) => {
            &&& named(wallet_opts, start.network, Err(e))
            &&& session == start
        },
        _ => false,
    }
}

/// How the session of a command begins.
pub open spec fn begins<N, F, K>(
    start: Session<N, F>,
    subcommand: CliSubCommand<N, F, K>,
    session: Session<N, F>,
    action: Action<N, F, K>,
) -> bool {
    let network = start.network;
    match subcommand {
        CliSubCommand::Wallet { wallet_opts, subcommand } => match subcommand {
            WalletSubCommand::OnlineWalletSubCommand(command) => opens(
                start,
                wallet_opts,
                Goal::Online(command),
                session,
                action,
            ),
            WalletSubCommand::OfflineWalletSubCommand(command) => opens(
                start,
                wallet_opts,
                Goal::Offline(command),
                session,
                action,
            ),
        },
        CliSubCommand::Repl { wallet_opts } => opens(
            start,
            wallet_opts,
            Goal::Repl,
            session,
            action,
        ),
        CliSubCommand::Key { subcommand } => start.runs(
            false,
            Action::RunKey { network, command: subcommand },
            session,
            action,
        ),
        CliSubCommand::Compile { policy, script_type } => start.runs(
            false,
            Action::Compile { network, policy, script_type },
            session,
            action,
        ),
        CliSubCommand::ExternalReserves {
            message,
            psbt,
            confirmations,
            addresses,
            electrum_opts,
        } => start.runs(
            false,
            Action::CheckReserves {
                network,
                message,
                psbt,
                confirmations,
                addresses,
                electrum_opts,
            },
            session,
            action,
        ),
    }
}

/// How the session of a command line begins on a network, given what the program started and was
/// built with.
pub open spec fn handles<N, F, K>(
    cli_opts: CliOpts<N, F, K>,
    network: Network,
    backend: Backend,
    features: Features,
    session: Session<N, F>,
    action: Action<N, F, K>,
) -> bool {
    begins(
        Session { features, network, backend, wallet_opts: None, phase: Phase::Finished },
        cli_opts.subcommand,
        session,
        action,
    )
}

/// Whether `begun` is how the session of a command line begins, unless the program does not have
/// the command, or reading the descriptors of its wallet for a name would abort the program.
pub open spec fn starts<N, F, K>(
    cli_opts: CliOpts<N, F, K>,
    network: Network,
    backend: Backend,
    features: Features,
    begun: Option<(Session<N, F>, Action<N, F, K>)>,
) -> bool {
    match begun {
        Some((session, action)) => {
            &&& cli_opts.subcommand.available(features)
            &&& cli_opts.subcommand.nameable(network)
            &&& session.wf()
            &&& handles(cli_opts, network, backend, features, session, action)
        },
        None => !cli_opts.subcommand.available(features) || !cli_opts.subcommand.nameable(network),
    }
}

// ---------------------------------------------------------------------------------------------
// Following the rules
// ---------------------------------------------------------------------------------------------

/// The wallet to load.
pub fn new_wallet(network: Network, wallet_opts: &WalletOpts) -> (request: WalletRequest)
    ensures
        request == wallet_request(*wallet_opts, network),
        request.descriptor == wallet_opts.descriptor,
        request.change_descriptor == wallet_opts.change_descriptor,
        request.network == network,
{
    WalletRequest {
        descriptor: wallet_opts.descriptor.clone(),
        change_descriptor: copy_text(&wallet_opts.change_descriptor),
        network,
    }
}

/// Begins a session with a wallet.
fn open_wallet<N, F, K>(
    start: Session<N, F>,
    wallet_opts: WalletOpts,
    goal: Goal<N, F>,
) -> (r: (Session<N, F>, Action<N, F, K>))
    requires
        start.phase is Finished,
        wallet_opts.nameable(start.network),
        goal is Online ==> start.features.online(),
    ensures
        r.0.wf(),
        opens(start, wallet_opts, goal, r.0, r.1),
{
    match maybe_descriptor_wallet_name(wallet_opts, start.network) {
        Ok(opts) => {
            let given = opts.copy();
            let mut session = start;
            session.wallet_opts = Some(opts);
            session.phase = Phase::Opening(goal);
            (session, Action::OpenDatabase(given))
        },
        Err(e) => (start, Action::Finish(Err(e))),
    }
}

/// Begins the session of a command, and says what to do first.
pub fn handle_command<N, F, K>(
    cli_opts: CliOpts<N, F, K>,
    network: Network,
    backend: Backend,
    features: Features,
) -> (r: (Session<N, F>, Action<N, F, K>))
    requires
        cli_opts.subcommand.available(features),
        cli_opts.subcommand.nameable(network),
    ensures
        r.0.wf(),
        handles(cli_opts, network, backend, features, r.0, r.1),
        r.0.network == network,
        r.0.backend == backend,
        r.0.features == features,
{
    let mut session: Session<N, F> = Session {
        features,
        network,
        backend,
        wallet_opts: None,
        phase: Phase::Finished,
    };
    match cli_opts.subcommand {
        CliSubCommand::Wallet { wallet_opts, subcommand } => match subcommand {
            WalletSubCommand::OnlineWalletSubCommand(command) => open_wallet(
                session,
                wallet_opts,
                Goal::Online(command),
            ),
            WalletSubCommand::OfflineWalletSubCommand(command) => open_wallet(
                session,
                wallet_opts,
                Goal::Offline(command),
            ),
        },
        CliSubCommand::Repl { wallet_opts } => open_wallet(session, wallet_opts, Goal::Repl),
        CliSubCommand::Key { subcommand } => {
            session.phase = Phase::Running { repl: false };
            (session, Action::RunKey { network, command: subcommand })
        },
        CliSubCommand::Compile { policy, script_type } => {
            session.phase = Phase::Running { repl: false };
            (session, Action::Compile { network, policy, script_type })
        },
        CliSubCommand::ExternalReserves {
            message,
            psbt,
            confirmations,
            addresses,
            electrum_opts,
        } => {
            session.phase = Phase::Running { repl: false };
            (
                session,
                Action::CheckReserves {
                    network,
                    message,
                    psbt,
                    confirmations,
                    addresses,
                    electrum_opts,
                },
            )
        },
    }
}

/// Begins the session of a command, unless the program does not have the command, or reading the
/// descriptors of its wallet for a name would abort the program.
pub fn start<N, F, K>(
    cli_opts: CliOpts<N, F, K>,
    network: Network,
    backend: Backend,
    features: Features,
) -> (r: Option<(Session<N, F>, Action<N, F, K>)>)
    ensures
        starts(cli_opts, network, backend, features, r),
        r is Some ==> (r->0).0.network == network,
        r is Some ==> (r->0).0.backend == backend,
        r is Some ==> (r->0).0.features == features,
{
    if cli_opts.subcommand.is_available(features) && cli_opts.subcommand.is_nameable(network) {
        Some(handle_command(cli_opts, network, backend, features))
    } else {
        None
    }
}

impl<N, F> Session<N, F> {
    /// The same session in another phase, with what to do there.
    fn turn<K>(self, phase: Phase<N, F>, action: Action<N, F, K>) -> (r: (
        Session<N, F>,
        Action<N, F, K>,
    ))
        ensures
            r == (self.at(phase), action),
    {
        let mut session = self;
        session.phase = phase;
        (session, action)
    }

    fn connect<K>(
        self,
        command: N,
        repl: bool,
        storage_dir: Result<Option<String>, Error>,
    ) -> (r: (Session<N, F>, Action<N, F, K>))
        requires
            self.has_wallet(),
            self.features.online(),
            derives_name(self.features, storage_dir) ==> self.wallet_opts->0.readable(self.network),
        ensures
            r.0.wf(),
            self.connects(command, repl, storage_dir, r.0, r.1),
    {
        let config = new_blockchain(
            self.features,
            self.network,
            self.wallet_opts.as_ref().unwrap(),
            &self.backend,
            storage_dir,
        );
        match config {
            Ok(config) => self.turn(
                Phase::Connecting { command, repl },
                Action::Connect(config),
            ),
            Err(e) => self.turn(Phase::Finished, Action::Finish(Err(e))),
        }
    }

    fn go_online<K>(self, command: N, repl: bool) -> (r: (Session<N, F>, Action<N, F, K>))
        requires
            self.has_wallet(),
            self.features.online(),
            !self.features.compact_filters && derives_name(self.features, Ok(None))
                ==> self.wallet_opts->0.readable(self.network),
        ensures
            r.0.wf(),
            self.goes_online(command, repl, r.0, r.1),
    {
        if self.features.compact_filters {
            self.turn(Phase::Preparing { command, repl }, Action::PrepareStorage)
        } else {
            self.connect(command, repl, Ok(None))
        }
    }

    fn load<K>(self, goal: Goal<N, F>) -> (r: (Session<N, F>, Action<N, F, K>))
        requires
            self.has_wallet(),
        ensures
            r.0.wf(),
            self.loads(goal, r.0, r.1),
    {
        let request = new_wallet(self.network, self.wallet_opts.as_ref().unwrap());
        self.turn(Phase::Loading(goal), Action::LoadWallet(request))
    }

    fn run_offline<K>(self, repl: bool, command: F) -> (r: (Session<N, F>, Action<N, F, K>))
        requires
            self.has_wallet(),
        ensures
            r.0.wf(),
            self.runs_offline(repl, command, r.0, r.1),
    {
        let wallet_opts = self.wallet_opts.as_ref().unwrap().copy();
        self.turn(Phase::Running { repl }, Action::RunOffline { command, wallet_opts })
    }

    fn exit<K>(self) -> (r: (Session<N, F>, Action<N, F, K>))
        ensures
            r.0.wf(),
            self.exits(r.0, r.1),
    {
        self.turn(Phase::Finished, Action::Finish(Ok("Exiting REPL".to_string())))
    }

    fn read<K>(self) -> (r: (Session<N, F>, Action<N, F, K>))
        requires
            self.has_wallet(),
        ensures
            r.0.wf(),
            self.reads(r.0, r.1),
    {
        self.turn(Phase::Reading, Action::ReadLine)
    }

    fn answer<K>(self, repl: bool, output: Result<serde_json::Value, Error>) -> (r: (
        Session<N, F>,
        Action<N, F, K>,
    ))
        requires
            repl ==> self.has_wallet(),
        ensures
            r.0.wf(),
            self.answers(repl, output, r.0, r.1),
    {
        match render(output) {
            Ok(text) => if repl {
                self.turn(Phase::Printing { last: false }, Action::Print(text))
            } else {
                self.turn(Phase::Finished, Action::Finish(Ok(text)))
            },
            Err(e) => self.turn(Phase::Finished, Action::Finish(Err(e))),
        }
    }

    fn take_line<K>(self, line: String) -> (r: (Session<N, F>, Action<N, F, K>))
        requires
            self.has_wallet(),
        ensures
            r.0.wf(),
            self.takes_line(line, r.0, r.1),
    {
        if is_blank(line.as_str()) {
            return self.read();
        }
        match split_line(line.as_str()) {
            Ok(words) => self.turn(Phase::Parsing, Action::Parse { line, words }),
            Err(e) => self.turn(Phase::Finished, Action::Finish(Err(e))),
        }
    }

    /// Whether an event can come in the phase of the session.
    pub fn can_take<K>(&self, event: &Event<N, F, K>) -> (r: bool)
        ensures
            r == self.expects(*event),
    {
        match event {
            Event::Opened(_) => matches!(self.phase, Phase::Opening(_)),
            Event::Prepared(_) => matches!(self.phase, Phase::Preparing { .. }),
            Event::Connected(_) => matches!(self.phase, Phase::Connecting { .. }),
            Event::Loaded(_) => matches!(self.phase, Phase::Loading(_)),
            Event::Output(_) => matches!(self.phase, Phase::Running { .. }),
            Event::Line(_) => matches!(self.phase, Phase::Reading),
            Event::Interrupted => matches!(self.phase, Phase::Reading),
            Event::Eof => matches!(self.phase, Phase::Reading),
            Event::ReadFailed(_) => matches!(self.phase, Phase::Reading),
            Event::Parsed(command) => matches!(self.phase, Phase::Parsing) && match command {
                ReplSubCommand::OnlineWalletSubCommand(_) => self.features.can_go_online(),
                _ => true,
            },
            Event::ParseFailed(_) => matches!(self.phase, Phase::Parsing),
            Event::Printed => matches!(self.phase, Phase::Printing { .. }),
        }
    }

    /// Whether the descriptors of the wallet can be read where an event has them read.
    pub fn can_read_descriptors_for<K>(&self, event: &Event<N, F, K>) -> (r: bool)
        requires
            self.wf(),
            self.expects(*event),
        ensures
            r == self.can_read_for(*event),
    {
        let derives = self.features.rpc && match event {
            Event::Opened(Ok(_)) => matches!(self.phase, Phase::Opening(Goal::Online(_)))
                && !self.features.compact_filters,
            Event::Prepared(storage_dir) => matches!(storage_dir, Ok(Some(_)))
                || !self.features.compact_filters,
            Event::Parsed(ReplSubCommand::OnlineWalletSubCommand(_)) =>
                !self.features.compact_filters,
            _ => false,
        };
        !derives || self.wallet_opts.as_ref().unwrap().is_readable(self.network)
    }

    /// Takes an event in, and says what to do next.
    pub fn step<K>(self, event: Event<N, F, K>) -> (r: (Session<N, F>, Action<N, F, K>))
        requires
            self.wf(),
            self.expects(event),
            self.can_read_for(event),
        ensures
            r.0.wf(),
            self.steps(event, r.0, r.1),
            r.0.network == self.network,
            r.0.backend == self.backend,
            r.0.features == self.features,
            r.0.wallet_opts == self.wallet_opts,
    {
        let Session { features, network, backend, wallet_opts, phase } = self;
        let session: Session<N, F> = Session {
            features,
            network,
            backend,
            wallet_opts,
            phase: Phase::Finished,
        };
        match event {
            Event::Opened(Err(e)) => session.turn(Phase::Finished, Action::Finish(Err(e))),
            Event::Opened(Ok(_)) => match phase {
                Phase::Opening(Goal::Online(command)) => session.go_online(command, false),
                Phase::Opening(goal) => session.load(goal),
                _ => unreached(),
            },
            Event::Prepared(storage_dir) => match phase {
                Phase::Preparing { command, repl } => session.connect(command, repl, storage_dir),
                _ => unreached(),
            },
            Event::Connected(Err(e)) => session.turn(Phase::Finished, Action::Finish(Err(e))),
            Event::Connected(Ok(_)) => match phase {
                Phase::Connecting { command, repl } => if repl {
                    session.turn(Phase::Running { repl: true }, Action::RunOnline(command))
                } else {
                    session.load(Goal::Online(command))
                },
                _ => unreached(),
            },
            Event::Loaded(Err(e)) => session.turn(Phase::Finished, Action::Finish(Err(e))),
            Event::Loaded(Ok(_)) => match phase {
                Phase::Loading(Goal::Online(command)) => session.turn(
                    Phase::Running { repl: false },
                    Action::RunOnline(command),
                ),
                Phase::Loading(Goal::Offline(command)) => session.run_offline(false, command),
                Phase::Loading(Goal::Repl) => session.read(),
                _ => unreached(),
            },
            Event::Output(output) => match phase {
                Phase::Running { repl } => session.answer(repl, output),
                _ => unreached(),
            },
            Event::Line(line) => session.take_line(line),
            Event::Interrupted => session.read(),
            Event::Eof => session.exit(),
            Event::ReadFailed(text) => session.turn(
                Phase::Printing { last: true },
                Action::Print(text),
            ),
            Event::Parsed(command) => match command {
                ReplSubCommand::OnlineWalletSubCommand(command) => session.go_online(
                    command,
                    true,
                ),
                ReplSubCommand::OfflineWalletSubCommand(command) => session.run_offline(
                    true,
                    command,
                ),
                ReplSubCommand::KeySubCommand(command) => session.turn(
                    Phase::Running { repl: true },
                    Action::RunKey { network, command },
                ),
                ReplSubCommand::Exit => session.exit(),
            },
            Event::ParseFailed(text) => session.turn(
                Phase::Printing { last: false },
                Action::Print(text),
            ),
            Event::Printed => match phase {
                Phase::Printing { last } => if last {
                    session.exit()
                } else {
                    session.read()
                },
                _ => unreached(),
            },
        }
    }
    /// Takes an event in, unless it cannot come now, or reading the descriptors of the wallet for
    /// it would abort the program.
    pub fn advance<K>(self, event: Event<N, F, K>) -> (r: Option<
        (Session<N, F>, Action<N, F, K>),
    >)
        requires
            self.wf(),
        ensures
            self.advances(event, r),
    {
        if self.can_take(&event) && self.can_read_descriptors_for(&event) {
            Some(self.step(event))
        } else {
            None
        }
    }
}

} // verus!
