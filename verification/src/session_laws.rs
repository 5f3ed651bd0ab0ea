//! What holds of every session.
use vstd::prelude::*;

use crate::blockchain::{connection, Backend, BlockchainConfig};
use crate::error::Error;
use crate::opts::{CliOpts, CliSubCommand, Features, Network, ReplSubCommand, WalletOpts};
use crate::render::rendered;
use crate::session::{
    begins, handles, opens, wallet_request, Action, Event, Goal, Phase, Session,
};
use crate::text::blank;

verus! {

/// The failure that an event reports of what it was asked to do.
pub open spec fn failure<N, F, K>(event: Event<N, F, K>) -> Option<Error> {
    match event {
        Event::Opened(Err(e)) => Some(e),
        Event::Connected(Err(e)) => Some(e),
        Event::Loaded(Err(e)) => Some(e),
        Event::Output(Err(e)) => Some(e),
        _ => None,
    }
}

/// A failure ends the session, and is its answer.
pub proof fn law_failure_is_the_answer<N, F, K>(
    session: Session<N, F>,
    event: Event<N, F, K>,
    after: Session<N, F>,
    action: Action<N, F, K>,
)
    requires
        session.expects(event),
        session.steps(event, after, action),
        failure(event) is Some,
    ensures
        after.phase is Finished,
        action == Action::<N, F, K>::Finish(Err(failure(event)->0)),
{
}

/// A session answers when it finishes and only then, and takes nothing after that.
pub proof fn law_answer_is_the_end<N, F, K>(
    session: Session<N, F>,
    event: Event<N, F, K>,
    after: Session<N, F>,
    action: Action<N, F, K>,
    later: Event<N, F, K>,
)
    requires
        session.expects(event),
        session.steps(event, after, action),
    ensures
        action is Finish <==> after.phase is Finished,
        after.phase is Finished ==> !after.expects(later),
{
}

/// A session keeps its network, its features, its backend and the options of its wallet.
pub proof fn law_setting_stays<N, F, K>(
    session: Session<N, F>,
    event: Event<N, F, K>,
    after: Session<N, F>,
    action: Action<N, F, K>,
)
    requires
        session.expects(event),
        session.steps(event, after, action),
    ensures
        after == session.at(after.phase),
{
}

/// An event leads to one phase only.
pub proof fn law_phase_is_determined<N, F, K>(
    session: Session<N, F>,
    event: Event<N, F, K>,
    after: Session<N, F>,
    action: Action<N, F, K>,
    other_after: Session<N, F>,
    other_action: Action<N, F, K>,
)
    requires
        session.expects(event),
        session.steps(event, after, action),
        session.steps(event, other_after, other_action),
    ensures
        after == other_after,
{
}

// ---------------------------------------------------------------------------------------------
// Sessions with one command
// ---------------------------------------------------------------------------------------------

/// Whether a session serves one command, not the prompt.
pub open spec fn serves_one_command<N, F>(session: Session<N, F>) -> bool {
    match session.phase {
        Phase::Opening(goal) => goal !is Repl,
        Phase::Preparing { repl, .. } => !repl,
        Phase::Connecting { repl, .. } => !repl,
        Phase::Loading(goal) => goal !is Repl,
        Phase::Running { repl } => !repl,
        Phase::Finished => true,
        _ => false,
    }
}

/// How many events a session with one command can still take.
pub open spec fn events_left<N, F>(session: Session<N, F>) -> nat {
    match session.phase {
        Phase::Opening(_) => 5,
        Phase::Preparing { .. } => 4,
        Phase::Connecting { .. } => 3,
        Phase::Loading(_) => 2,
        Phase::Running { .. } => 1,
        _ => 0,
    }
}

/// The session of any command but the prompt serves that one command.
pub proof fn law_only_the_prompt_takes_more_commands<N, F, K>(
    start: Session<N, F>,
    subcommand: CliSubCommand<N, F, K>,
    first: Session<N, F>,
    action: Action<N, F, K>,
)
    requires
        start.phase is Finished,
        begins(start, subcommand, first, action),
        subcommand !is Repl,
    ensures
        serves_one_command(first),
{
}

/// A session with one command ends: each event leaves fewer to come.
pub proof fn law_one_command_ends<N, F, K>(
    session: Session<N, F>,
    event: Event<N, F, K>,
    after: Session<N, F>,
    action: Action<N, F, K>,
)
    requires
        serves_one_command(session),
        session.expects(event),
        session.steps(event, after, action),
    ensures
        serves_one_command(after),
        events_left(after) < events_left(session),
{
}

/// The database that is opened is that of the wallet of the command: under the name that was
/// given, or else under the one derived from the descriptors.
pub proof fn law_database_is_that_of_the_wallet<N, F, K>(
    start: Session<N, F>,
    wallet_opts: WalletOpts,
    goal: Goal<N, F>,
    session: Session<N, F>,
    given: WalletOpts,
)
    requires
        opens(start, wallet_opts, goal, session, Action::<N, F, K>::OpenDatabase(given)),
    ensures
        given.wallet is Some,
        given.wallet == session.wallet_opts->0.wallet,
        wallet_opts.wallet is Some ==> given.wallet == wallet_opts.wallet,
        wallet_opts.wallet is None ==> wallet_opts.derived_name(start.network)
            == Ok::<Seq<char>, Seq<char>>(given.wallet->0@),
{
}

/// The course of a command on a wallet that needs a blockchain, where nothing fails: the
/// database is opened, compact filters get their directory, the connection is made, the wallet
/// loaded, the command run, and what it returned is the answer.
pub proof fn law_course_of_online_command<N, F, K>(
    opened: Session<N, F>,
    command: N,
    preparing: Session<N, F>,
    prepare: Action<N, F, K>,
    storage_dir: Result<Option<String>, Error>,
    config: BlockchainConfig,
    connecting: Session<N, F>,
    connect: Action<N, F, K>,
    loading: Session<N, F>,
    load: Action<N, F, K>,
    running: Session<N, F>,
    run: Action<N, F, K>,
    output: serde_json::Value,
    finished: Session<N, F>,
    answer: Action<N, F, K>,
)
    requires
        opened.phase == Phase::<N, F>::Opening(Goal::Online(command)),
        opened.steps(Event::Opened(Ok(())), preparing, prepare),
        opened.features.compact_filters ==> preparing.steps(
            Event::Prepared(storage_dir),
            connecting,
            connect,
        ),
        !opened.features.compact_filters ==> storage_dir == Ok::<Option<String>, Error>(None)
            && connecting == preparing && connect == prepare,
        connection(
            opened.features,
            opened.network,
            opened.wallet_opts->0,
            opened.backend,
            storage_dir,
            Ok(config),
        ),
        connecting.steps(Event::Connected(Ok(())), loading, load),
        loading.steps(Event::Loaded(Ok(())), running, run),
        running.steps(Event::Output(Ok(output)), finished, answer),
    ensures
        opened.features.compact_filters ==> prepare is PrepareStorage && preparing.expects(
            Event::<N, F, K>::Prepared(storage_dir),
        ),
        connect matches Action::Connect(c) && connection(
            opened.features,
            opened.network,
            opened.wallet_opts->0,
            opened.backend,
            storage_dir,
            Ok(c),
        ),
        connecting.expects(Event::<N, F, K>::Connected(Ok(()))),
        load == Action::<N, F, K>::LoadWallet(
            wallet_request(opened.wallet_opts->0, opened.network),
        ),
        loading.expects(Event::<N, F, K>::Loaded(Ok(()))),
        run == Action::<N, F, K>::RunOnline(command),
        running.expects(Event::<N, F, K>::Output(Ok(output))),
        answer matches Action::Finish(outcome) && rendered(Ok(output), outcome),
{
}

/// The course of a command on a wallet that needs no blockchain, where nothing fails: no
/// connection is made.
pub proof fn law_course_of_offline_command<N, F, K>(
    opened: Session<N, F>,
    command: F,
    loading: Session<N, F>,
    load: Action<N, F, K>,
    running: Session<N, F>,
    run: Action<N, F, K>,
    output: serde_json::Value,
    finished: Session<N, F>,
    answer: Action<N, F, K>,
)
    requires
        opened.phase == Phase::<N, F>::Opening(Goal::Offline(command)),
        opened.steps(Event::Opened(Ok(())), loading, load),
        loading.steps(Event::Loaded(Ok(())), running, run),
        running.steps(Event::Output(Ok(output)), finished, answer),
    ensures
        load == Action::<N, F, K>::LoadWallet(
            wallet_request(opened.wallet_opts->0, opened.network),
        ),
        loading.expects(Event::<N, F, K>::Loaded(Ok(()))),
        run matches Action::RunOffline { command: c, wallet_opts } && c == command
            && wallet_opts.same_as(opened.wallet_opts->0),
        running.expects(Event::<N, F, K>::Output(Ok(output))),
        answer matches Action::Finish(outcome) && rendered(Ok(output), outcome),
{
}

// ---------------------------------------------------------------------------------------------
// The prompt
// ---------------------------------------------------------------------------------------------

/// A line of white space and an interrupted line leave the prompt as it was.
pub proof fn law_empty_lines_do_nothing<N, F, K>(
    session: Session<N, F>,
    event: Event<N, F, K>,
    after: Session<N, F>,
    action: Action<N, F, K>,
)
    requires
        session.expects(event),
        session.steps(event, after, action),
        event is Interrupted || (event matches Event::Line(line) && blank(line@)),
    ensures
        after == session,
        action is ReadLine,
{
}

/// The prompt comes back after words that are no command and after a command that returned
/// something to print, once the text is printed.
pub proof fn law_prompt_comes_back<N, F, K>(
    session: Session<N, F>,
    event: Event<N, F, K>,
    after: Session<N, F>,
    action: Action<N, F, K>,
    next: Session<N, F>,
    next_action: Action<N, F, K>,
)
    requires
        session.expects(event),
        session.steps(event, after, action),
        event is ParseFailed || (event is Output && action is Print),
        after.steps(Event::Printed, next, next_action),
    ensures
        action is Print,
        after.expects(Event::<N, F, K>::Printed),
        next == session.at(Phase::Reading),
        next_action is ReadLine,
{
}

/// The course of a command typed at the prompt that needs a blockchain, where nothing fails: a
/// connection of its own is made for it, it is run on the wallet that is loaded already, and
/// what it returned is printed.
pub proof fn law_course_of_prompt_command<N, F, K>(
    parsing: Session<N, F>,
    command: N,
    preparing: Session<N, F>,
    prepare: Action<N, F, K>,
    storage_dir: Result<Option<String>, Error>,
    config: BlockchainConfig,
    connecting: Session<N, F>,
    connect: Action<N, F, K>,
    running: Session<N, F>,
    run: Action<N, F, K>,
    output: serde_json::Value,
    after: Session<N, F>,
    answer: Action<N, F, K>,
)
    requires
        parsing.phase is Parsing,
        parsing.steps(
            Event::Parsed(ReplSubCommand::OnlineWalletSubCommand(command)),
            preparing,
            prepare,
        ),
        parsing.features.compact_filters ==> preparing.steps(
            Event::Prepared(storage_dir),
            connecting,
            connect,
        ),
        !parsing.features.compact_filters ==> storage_dir == Ok::<Option<String>, Error>(None)
            && connecting == preparing && connect == prepare,
        connection(
            parsing.features,
            parsing.network,
            parsing.wallet_opts->0,
            parsing.backend,
            storage_dir,
            Ok(config),
        ),
        connecting.steps(Event::Connected(Ok(())), running, run),
        running.steps(Event::Output(Ok(output)), after, answer),
    ensures
        parsing.features.compact_filters ==> prepare is PrepareStorage && preparing.expects(
            Event::<N, F, K>::Prepared(storage_dir),
        ),
        connect matches Action::Connect(c) && connection(
            parsing.features,
            parsing.network,
            parsing.wallet_opts->0,
            parsing.backend,
            storage_dir,
            Ok(c),
        ),
        connecting.expects(Event::<N, F, K>::Connected(Ok(()))),
        run == Action::<N, F, K>::RunOnline(command),
        running.expects(Event::<N, F, K>::Output(Ok(output))),
        match answer {
            Action::Print(text) => rendered(Ok(output), Ok(text)),
            Action::Finish(outcome) => outcome is Err && rendered(Ok(output), outcome),
            _ => false,
        },
{
}

/// A session at the prompt that ends without a failure ends with the same words, and only by
/// the command to exit, at the end of the input, or once it is printed why no line could be
/// read.
pub proof fn law_ways_out_of_the_prompt<N, F, K>(
    session: Session<N, F>,
    event: Event<N, F, K>,
    after: Session<N, F>,
    text: String,
)
    requires
        session.expects(event),
        session.steps(event, after, Action::<N, F, K>::Finish(Ok(text))),
        !serves_one_command(session),
    ensures
        text@ == "Exiting REPL"@,
        event is Eof || event == Event::<N, F, K>::Parsed(ReplSubCommand::Exit) || (event
            is Printed && session.phase == Phase::<N, F>::Printing { last: true }),
{
}

// ---------------------------------------------------------------------------------------------
// Whole sessions
// ---------------------------------------------------------------------------------------------

/// One turn of a session: an event, the session after it and what to do next.
pub struct Turn<N, F, K> {
    pub event: Event<N, F, K>,
    pub after: Session<N, F>,
    pub action: Action<N, F, K>,
}

/// The session before a turn.
pub open spec fn before<N, F, K>(
    first: Session<N, F>,
    turns: Seq<Turn<N, F, K>>,
    i: int,
) -> Session<N, F> {
    if i == 0 {
        first
    } else {
        turns[i - 1].after
    }
}

/// Whether a turn follows as the rules say.
pub open spec fn follows<N, F, K>(session: Session<N, F>, turn: Turn<N, F, K>) -> bool {
    session.expects(turn.event) && session.steps(turn.event, turn.after, turn.action)
}

/// Whether turns follow one another as the rules say.
pub open spec fn is_course<N, F, K>(first: Session<N, F>, turns: Seq<Turn<N, F, K>>) -> bool {
    forall|i: int|
        0 <= i < turns.len() ==> follows(#[trigger] before(first, turns, i), turns[i])
}

/// Whether an event came in one of the first `n` turns.
pub open spec fn happened<N, F, K>(
    turns: Seq<Turn<N, F, K>>,
    n: int,
    event: Event<N, F, K>,
) -> bool {
    exists|i: int| 0 <= i < n && (#[trigger] turns[i]).event == event
}

/// What must have happened for a session that began by opening a database to be in a phase.
pub open spec fn backed<N, F>(
    phase: Phase<N, F>,
    opened: bool,
    loaded: bool,
    connected: bool,
) -> bool {
    match phase {
        Phase::Opening(_) => true,
        Phase::Preparing { repl, .. } => opened && (repl ==> loaded),
        Phase::Connecting { repl, .. } => opened && (repl ==> loaded),
        Phase::Loading(goal) => opened && (goal is Online ==> connected),
        Phase::Finished => true,
        _ => opened && loaded,
    }
}

proof fn lemma_turn_is_backed<N, F, K>(
    session: Session<N, F>,
    turn: Turn<N, F, K>,
    opened: bool,
    loaded: bool,
    connected: bool,
)
    requires
        follows(session, turn),
        backed(session.phase, opened, loaded, connected),
    ensures
        ({
            let opened = opened || turn.event == Event::<N, F, K>::Opened(Ok(()));
            let loaded = loaded || turn.event == Event::<N, F, K>::Loaded(Ok(()));
            let connected = connected || turn.event == Event::<N, F, K>::Connected(Ok(()));
            &&& backed(turn.after.phase, opened, loaded, connected)
            &&& turn.action is RunOnline || turn.action is RunOffline ==> opened && loaded
            &&& turn.action is RunOnline ==> connected
        }),
{
    match turn.event {
        Event::Opened(Ok(done)) => assert(done == ()),
        Event::Loaded(Ok(done)) => assert(done == ()),
        Event::Connected(Ok(done)) => assert(done == ()),
        _ => {},
    }
}

proof fn lemma_happened<N, F, K>(turns: Seq<Turn<N, F, K>>, n: int, event: Event<N, F, K>)
    requires
        0 <= n < turns.len(),
    ensures
        happened(turns, n + 1, event) == (happened(turns, n, event) || turns[n].event == event),
{
    if turns[n].event == event {
        assert(happened(turns, n + 1, event));
    }
    if happened(turns, n, event) {
        let i = choose|i: int| 0 <= i < n && (#[trigger] turns[i]).event == event;
        assert(turns[i].event == event);
    }
}

/// No command on a wallet runs before the database of the wallet was opened and the wallet was
/// loaded, and none that needs a blockchain before a connection was made.
pub proof fn law_commands_run_on_open_wallets<N, F, K>(
    first: Session<N, F>,
    turns: Seq<Turn<N, F, K>>,
    n: int,
)
    requires
        first.phase is Opening,
        is_course(first, turns),
        0 <= n <= turns.len(),
    ensures
        backed(
            before(first, turns, n).phase,
            happened(turns, n, Event::<N, F, K>::Opened(Ok(()))),
            happened(turns, n, Event::<N, F, K>::Loaded(Ok(()))),
            happened(turns, n, Event::<N, F, K>::Connected(Ok(()))),
        ),
        n > 0 && (turns[n - 1].action is RunOnline || turns[n - 1].action is RunOffline)
            ==> happened(turns, n, Event::<N, F, K>::Opened(Ok(()))) && happened(
            turns,
            n,
            Event::<N, F, K>::Loaded(Ok(())),
        ),
        n > 0 && turns[n - 1].action is RunOnline ==> happened(
            turns,
            n,
            Event::<N, F, K>::Connected(Ok(())),
        ),
    decreases n,
{
    if n > 0 {
        law_commands_run_on_open_wallets(first, turns, n - 1);
        let session = before(first, turns, n - 1);
        assert(follows(session, turns[n - 1]));
        lemma_happened(turns, n - 1, Event::<N, F, K>::Opened(Ok(())));
        lemma_happened(turns, n - 1, Event::<N, F, K>::Loaded(Ok(())));
        lemma_happened(turns, n - 1, Event::<N, F, K>::Connected(Ok(())));
        lemma_turn_is_backed(
            session,
            turns[n - 1],
            happened(turns, n - 1, Event::<N, F, K>::Opened(Ok(()))),
            happened(turns, n - 1, Event::<N, F, K>::Loaded(Ok(()))),
            happened(turns, n - 1, Event::<N, F, K>::Connected(Ok(()))),
        );
    }
}

/// Whether a session has nothing left to load.
pub open spec fn is_loaded<N, F>(session: Session<N, F>) -> bool {
    match session.phase {
        Phase::Opening(_) => false,
        Phase::Preparing { repl, .. } => repl,
        Phase::Connecting { repl, .. } => repl,
        Phase::Loading(_) => false,
        _ => true,
    }
}

proof fn lemma_turn_goes_on<N, F, K>(session: Session<N, F>, turn: Turn<N, F, K>)
    requires
        follows(session, turn),
    ensures
        turn.after.phase !is Opening,
        turn.event is Opened ==> session.phase is Opening,
        turn.event is Loaded ==> session.phase is Loading,
        is_loaded(session) || turn.event is Loaded ==> is_loaded(turn.after),
{
}

proof fn lemma_no_way_back<N, F, K>(
    first: Session<N, F>,
    turns: Seq<Turn<N, F, K>>,
    i: int,
    j: int,
)
    requires
        is_course(first, turns),
        0 <= i <= j <= turns.len(),
    ensures
        is_loaded(before(first, turns, i)) ==> is_loaded(before(first, turns, j)),
    decreases j - i,
{
    if i < j {
        lemma_no_way_back(first, turns, i, j - 1);
        let session = before(first, turns, j - 1);
        assert(follows(session, turns[j - 1]));
        lemma_turn_goes_on(session, turns[j - 1]);
    }
}

/// The database is opened once and the wallet loaded once, however many commands are typed.
pub proof fn law_wallet_is_opened_once<N, F, K>(
    first: Session<N, F>,
    turns: Seq<Turn<N, F, K>>,
    i: int,
    j: int,
)
    requires
        is_course(first, turns),
        0 <= i < j < turns.len(),
    ensures
        !(turns[i].event is Opened && turns[j].event is Opened),
        !(turns[i].event is Loaded && turns[j].event is Loaded),
{
    assert(follows(before(first, turns, i), turns[i]));
    assert(follows(before(first, turns, j), turns[j]));
    assert(follows(before(first, turns, j - 1), turns[j - 1]));
    lemma_turn_goes_on(before(first, turns, i), turns[i]);
    lemma_turn_goes_on(before(first, turns, j), turns[j]);
    lemma_turn_goes_on(before(first, turns, j - 1), turns[j - 1]);
    lemma_no_way_back(first, turns, i + 1, j);
}

/// Whether a turn passes over what was typed: the line is interrupted or holds white space only.
pub open spec fn passes_over<N, F, K>(turn: Turn<N, F, K>) -> bool {
    turn.event is Interrupted || (turn.event matches Event::Line(line) && blank(line@))
}

/// A whole session goes the same way without a line that is passed over.
pub proof fn law_passed_over_lines_leave_the_course<N, F, K>(
    first: Session<N, F>,
    turns: Seq<Turn<N, F, K>>,
    i: int,
)
    requires
        is_course(first, turns),
        0 <= i < turns.len(),
        passes_over(turns[i]),
    ensures
        is_course(first, turns.remove(i)),
        before(first, turns.remove(i), turns.len() - 1) == before(
            first,
            turns,
            turns.len() as int,
        ),
{
    let rest = turns.remove(i);
    let session = before(first, turns, i);
    assert(follows(session, turns[i]));
    assert(turns[i].after == session) by {
            law_empty_lines_do_nothing(session, turns[i].event, turns[i].after, turns[i].action);
    }
    assert forall|k: int| 0 <= k < rest.len() implies follows(
        #[trigger] before(first, rest, k),
        rest[k],
    ) by {
        if k < i {
            assert(rest[k] == turns[k]);
            assert(before(first, rest, k) == before(first, turns, k));
        } else {
            assert(rest[k] == turns[k + 1]);
            assert(before(first, rest, k) == before(first, turns, k + 1));
        }
    }
}

// ---------------------------------------------------------------------------------------------
// One command and the prompt
// ---------------------------------------------------------------------------------------------

/// Whether two actions run the same command, with the same options.
pub open spec fn runs_the_same<N, F, K>(a: Action<N, F, K>, b: Action<N, F, K>) -> bool {
    match a {
        Action::RunOnline(command) => b == Action::<N, F, K>::RunOnline(command),
        Action::RunOffline { command, wallet_opts } => {
            &&& b matches Action::RunOffline { command: c, wallet_opts: opts }
            &&& c == command
            &&& opts.same_as(wallet_opts)
        },
        Action::RunKey { .. } => a == b,
        _ => false,
    }
}

/// Whether what is printed at the prompt is what is answered alone, be it a text or a failure.
pub open spec fn tells_the_same<N, F, K>(alone: Action<N, F, K>, typed: Action<N, F, K>) -> bool {
    match alone {
        Action::Finish(Ok(text)) => typed matches Action::Print(t) && t@ == text@,
        Action::Finish(Err(error)) => typed matches Action::Finish(Err(e)) && e@ == error@,
        _ => false,
    }
}

/// What a command typed at the prompt is the same as.
pub open spec fn goal_of<N, F, K>(command: ReplSubCommand<N, F, K>) -> Option<Goal<N, F>> {
    match command {
        ReplSubCommand::OnlineWalletSubCommand(c) => Some(Goal::Online(c)),
        ReplSubCommand::OfflineWalletSubCommand(c) => Some(Goal::Offline(c)),
        _ => None,
    }
}

/// Whether the command that is typed is run now: one that needs a blockchain is once the
/// connection is made.
pub open spec fn runs_typed<N, F, K>(
    session: Session<N, F>,
    command: ReplSubCommand<N, F, K>,
    after: Session<N, F>,
    action: Action<N, F, K>,
) -> bool {
    match command {
        ReplSubCommand::OnlineWalletSubCommand(c) => {
            &&& session.phase == Phase::<N, F>::Connecting { command: c, repl: true }
            &&& session.steps(Event::Connected(Ok(())), after, action)
        },
        _ => {
            &&& session.phase is Parsing
            &&& session.steps(Event::Parsed(command), after, action)
        },
    }
}

/// A command typed at the prompt is run as the same command on the same wallet is that was given
/// alone.
pub proof fn law_prompt_runs_the_same_command<N, F, K>(
    one: Session<N, F>,
    prompt: Session<N, F>,
    command: ReplSubCommand<N, F, K>,
    one_after: Session<N, F>,
    one_action: Action<N, F, K>,
    prompt_after: Session<N, F>,
    prompt_action: Action<N, F, K>,
)
    requires
        one.wallet_opts == prompt.wallet_opts,
        goal_of(command) is Some,
        one.phase == Phase::<N, F>::Loading(goal_of(command)->0),
        one.steps(Event::Loaded(Ok(())), one_after, one_action),
        runs_typed(prompt, command, prompt_after, prompt_action),
    ensures
        one_after == one.at((Phase::Running { repl: false })),
        prompt_after == prompt.at((Phase::Running { repl: true })),
        runs_the_same(one_action, prompt_action),
{
}

/// A command on keys typed at the prompt is run as the same command is that was given alone.
pub proof fn law_prompt_runs_the_same_key_command<N, F, K>(
    start: Session<N, F>,
    prompt: Session<N, F>,
    command: K,
    one_after: Session<N, F>,
    one_action: Action<N, F, K>,
    prompt_after: Session<N, F>,
    prompt_action: Action<N, F, K>,
)
    requires
        start.network == prompt.network,
        begins(start, (CliSubCommand::Key { subcommand: command }), one_after, one_action),
        runs_typed(prompt, ReplSubCommand::KeySubCommand(command), prompt_after, prompt_action),
    ensures
        one_after == start.at((Phase::Running { repl: false })),
        prompt_after == prompt.at((Phase::Running { repl: true })),
        runs_the_same(one_action, prompt_action),
{
}

/// What a command returned gives the same text at the prompt as alone, and the same failure.
pub proof fn law_prompt_gives_the_same_text<N, F, K>(
    one: Session<N, F>,
    prompt: Session<N, F>,
    output: Result<serde_json::Value, Error>,
    one_after: Session<N, F>,
    one_action: Action<N, F, K>,
    prompt_after: Session<N, F>,
    prompt_action: Action<N, F, K>,
)
    requires
        one.phase == (Phase::<N, F>::Running { repl: false }),
        prompt.phase == (Phase::<N, F>::Running { repl: true }),
        one.steps(Event::Output(output), one_after, one_action),
        prompt.steps(Event::Output(output), prompt_after, prompt_action),
    ensures
        tells_the_same(one_action, prompt_action),
{
}

// ---------------------------------------------------------------------------------------------
// What plays no part
// ---------------------------------------------------------------------------------------------

/// Only the network that the command is handled on counts, not the one that stands in the
/// options.
pub proof fn law_network_of_the_options_plays_no_part<N, F, K>(
    a: CliOpts<N, F, K>,
    b: CliOpts<N, F, K>,
    network: Network,
    backend: Backend,
    features: Features,
    session: Session<N, F>,
    action: Action<N, F, K>,
)
    requires
        a.subcommand == b.subcommand,
    ensures
        handles(a, network, backend, features, session, action) <==> handles(
            b,
            network,
            backend,
            features,
            session,
            action,
        ),
{
}

/// The same session with another backend.
pub open spec fn with_backend<N, F>(session: Session<N, F>, backend: Backend) -> Session<N, F> {
    Session { backend, ..session }
}

/// Whether a session has nothing to do with a blockchain.
pub open spec fn stays_offline<N, F>(session: Session<N, F>) -> bool {
    match session.phase {
        Phase::Opening(goal) => goal is Offline,
        Phase::Loading(goal) => goal is Offline,
        Phase::Running { repl } => !repl,
        Phase::Finished => true,
        _ => false,
    }
}

/// Whether the backend has no part in a command.
pub open spec fn needs_no_blockchain<N, F, K>(subcommand: CliSubCommand<N, F, K>) -> bool {
    match subcommand {
        CliSubCommand::Wallet { subcommand, .. } => subcommand is OfflineWalletSubCommand,
        CliSubCommand::Repl { .. } => false,
        _ => true,
    }
}

/// A session begins the same way with any backend, and one for a command that needs no
/// blockchain has nothing to do with one.
pub proof fn law_backend_plays_no_part_at_first<N, F, K>(
    start: Session<N, F>,
    subcommand: CliSubCommand<N, F, K>,
    backend: Backend,
    session: Session<N, F>,
    action: Action<N, F, K>,
)
    requires
        start.phase is Finished,
        begins(start, subcommand, session, action),
    ensures
        begins(with_backend(start, backend), subcommand, with_backend(session, backend), action),
        needs_no_blockchain(subcommand) ==> stays_offline(session),
{
}

/// A turn with another backend, the event and the action being the same.
pub open spec fn turn_with_backend<N, F, K>(
    turn: Turn<N, F, K>,
    backend: Backend,
) -> Turn<N, F, K> {
    Turn { after: with_backend(turn.after, backend), ..turn }
}

proof fn lemma_offline_turn<N, F, K>(session: Session<N, F>, turn: Turn<N, F, K>, backend: Backend)
    requires
        stays_offline(session),
        follows(session, turn),
    ensures
        stays_offline(turn.after),
        follows(with_backend(session, backend), turn_with_backend(turn, backend)),
{
}

/// Turns with another backend.
pub open spec fn turns_with_backend<N, F, K>(
    turns: Seq<Turn<N, F, K>>,
    backend: Backend,
) -> Seq<Turn<N, F, K>> {
    turns.map_values(|turn: Turn<N, F, K>| turn_with_backend(turn, backend))
}

proof fn lemma_stays_offline<N, F, K>(first: Session<N, F>, turns: Seq<Turn<N, F, K>>, n: int)
    requires
        stays_offline(first),
        is_course(first, turns),
        0 <= n <= turns.len(),
    ensures
        stays_offline(before(first, turns, n)),
    decreases n,
{
    if n > 0 {
        lemma_stays_offline(first, turns, n - 1);
        let session = before(first, turns, n - 1);
        assert(follows(session, turns[n - 1]));
        lemma_offline_turn(session, turns[n - 1], session.backend);
    }
}

/// A session that has nothing to do with a blockchain goes the same way with any backend.
pub proof fn law_backend_plays_no_part_offline<N, F, K>(
    first: Session<N, F>,
    turns: Seq<Turn<N, F, K>>,
    backend: Backend,
)
    requires
        stays_offline(first),
        is_course(first, turns),
    ensures
        is_course(with_backend(first, backend), turns_with_backend(turns, backend)),
{
    let other = turns_with_backend(turns, backend);
    assert forall|i: int| 0 <= i < other.len() implies follows(
        #[trigger] before(with_backend(first, backend), other, i),
        other[i],
    ) by {
        let session = before(first, turns, i);
        assert(follows(session, turns[i]));
        lemma_stays_offline(first, turns, i);
        lemma_offline_turn(session, turns[i], backend);
        assert(before(with_backend(first, backend), other, i) == with_backend(session, backend));
    }
}

} // verus!
