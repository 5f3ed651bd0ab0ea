use bdk_cli::blockchain::{Backend, BlockchainConfig};
use bdk_cli::error::Error;
use bdk_cli::opts::{
    CliOpts, CliSubCommand, CompactFilterOpts, ElectrumOpts, EsploraOpts, Features, Network,
    ProxyOpts, ReplSubCommand, RpcOpts, WalletOpts, WalletSubCommand,
};
use bdk_cli::session::{
    handle_command, new_wallet, start, Action, Event, Phase, Session, WalletRequest,
};

const DESCRIPTOR: &str = "pkh(tpubD6NzVbkrYhZ4XHndKkuB8FifXm8r5FQHwrN6oZuWCz13qb93rtgKvD4PQsqC4HP4yhV3tA2fqr2RbY5mNXfM7RxXUoeABoDtsFUq2zJq6YK/44'/1'/0'/0/*)";

type Act = Action<&'static str, u8, char>;
type Ev = Event<&'static str, u8, char>;
type Sub = CliSubCommand<&'static str, u8, char>;
type Ses = Session<&'static str, u8>;

fn features() -> Features {
    Features {
        electrum: true,
        esplora: false,
        compact_filters: false,
        rpc: false,
        repl: true,
        compiler: true,
        reserves: true,
    }
}

fn electrum_opts() -> ElectrumOpts {
    ElectrumOpts { server: "ssl://electrum:60002".to_string(), timeout: None, stop_gap: 10 }
}

fn wallet(name: Option<&str>, descriptor: &str) -> WalletOpts {
    WalletOpts {
        wallet: name.map(str::to_string),
        descriptor: descriptor.to_string(),
        change_descriptor: Some("change".to_string()),
        verbose: false,
        electrum_opts: electrum_opts(),
        esplora_opts: EsploraOpts { server: String::new(), timeout: 5, conc: 4, stop_gap: 10 },
        compactfilter_opts: CompactFilterOpts {
            address: vec!["one".to_string()],
            conn_count: 1,
            skip_blocks: 0,
        },
        rpc_opts: RpcOpts {
            address: "127.0.0.1:18443".to_string(),
            basic_auth: ("user".to_string(), "password".to_string()),
            cookie: None,
            skip_blocks: None,
        },
        proxy_opts: ProxyOpts { proxy: None, proxy_auth: None, retries: 5 },
    }
}

fn mine() -> WalletOpts {
    wallet(Some("mine"), "descriptor")
}

fn online() -> Sub {
    CliSubCommand::Wallet {
        wallet_opts: mine(),
        subcommand: WalletSubCommand::OnlineWalletSubCommand("sync"),
    }
}

fn offline() -> Sub {
    CliSubCommand::Wallet {
        wallet_opts: mine(),
        subcommand: WalletSubCommand::OfflineWalletSubCommand(7),
    }
}

fn repl() -> Sub {
    CliSubCommand::Repl { wallet_opts: mine() }
}

fn begin_with(features: Features, subcommand: Sub) -> (Ses, Act) {
    assert!(subcommand.is_available(features));
    assert!(subcommand.is_nameable(Network::Testnet));
    let opts = CliOpts { network: Network::Testnet, subcommand };
    handle_command(opts, Network::Testnet, Backend::Absent, features)
}

fn begin(subcommand: Sub) -> (Ses, Act) {
    begin_with(features(), subcommand)
}

fn step(session: Ses, event: Ev) -> (Ses, Act) {
    assert!(session.can_take(&event));
    assert!(session.can_read_descriptors_for(&event));
    session.step(event)
}

fn prompt_with(features: Features) -> Ses {
    let (session, _) = begin_with(features, repl());
    let (session, _) = step(session, Event::Opened(Ok(())));
    let (session, action) = step(session, Event::Loaded(Ok(())));
    assert_eq!(action, Action::ReadLine);
    session
}

fn prompt() -> Ses {
    prompt_with(features())
}

fn parsing() -> Ses {
    step(prompt(), Event::Line("sync".to_string())).0
}

fn request() -> WalletRequest {
    WalletRequest {
        descriptor: "descriptor".to_string(),
        change_descriptor: Some("change".to_string()),
        network: Network::Testnet,
    }
}

fn number(n: u8) -> Result<serde_json::Value, Error> {
    Ok(serde_json::Value::from(n))
}

fn broken() -> Error {
    Error::Other("broken".to_string())
}

fn failed() -> Act {
    Action::Finish(Err(broken()))
}

fn exited() -> Act {
    Action::Finish(Ok("Exiting REPL".to_string()))
}

fn is_electrum(action: &Act) -> bool {
    matches!(action, Action::Connect(BlockchainConfig::Electrum(c)) if c.url == "ssl://electrum:60002")
}

#[test]
fn an_online_command_runs_its_course() {
    let (session, action) = begin(online());
    assert_eq!(action, Action::OpenDatabase(mine()));
    let (session, action) = step(session, Event::Opened(Ok(())));
    assert!(is_electrum(&action));
    let (session, action) = step(session, Event::Connected(Ok(())));
    assert_eq!(action, Action::LoadWallet(request()));
    let (session, action) = step(session, Event::Loaded(Ok(())));
    assert_eq!(action, Action::RunOnline("sync"));
    let (session, action) = step(session, Event::Output(number(5)));
    assert_eq!(action, Action::Finish(Ok("5".to_string())));
    assert_eq!(session.phase, Phase::Finished);
}

#[test]
fn an_offline_command_makes_no_connection() {
    let (session, action) = begin(offline());
    assert_eq!(action, Action::OpenDatabase(mine()));
    let (session, action) = step(session, Event::Opened(Ok(())));
    assert_eq!(action, Action::LoadWallet(request()));
    let (session, action) = step(session, Event::Loaded(Ok(())));
    assert_eq!(action, Action::RunOffline { command: 7, wallet_opts: mine() });
    let (session, action) = step(session, Event::Output(number(6)));
    assert_eq!(action, Action::Finish(Ok("6".to_string())));
    assert_eq!(session.phase, Phase::Finished);
}

#[test]
fn a_failure_at_any_point_is_the_answer() {
    let (session, _) = begin(online());
    assert_eq!(step(session, Event::Opened(Err(broken()))).1, failed());

    let (session, _) = begin(online());
    let (session, _) = step(session, Event::Opened(Ok(())));
    assert_eq!(step(session, Event::Connected(Err(broken()))).1, failed());

    let (session, _) = begin(online());
    let (session, _) = step(session, Event::Opened(Ok(())));
    let (session, _) = step(session, Event::Connected(Ok(())));
    let (session, action) = step(session, Event::Loaded(Err(Error::ChecksumMismatch)));
    assert_eq!(action, Action::Finish(Err(Error::ChecksumMismatch)));
    assert_eq!(session.phase, Phase::Finished);

    let (session, _) = begin(offline());
    let (session, _) = step(session, Event::Opened(Ok(())));
    let (session, _) = step(session, Event::Loaded(Ok(())));
    assert_eq!(step(session, Event::Output(Err(broken()))).1, failed());
}

#[test]
fn a_wallet_without_a_name_gets_one() {
    let mut opts = wallet(None, DESCRIPTOR);
    opts.change_descriptor = None;
    let (session, action) = begin(CliSubCommand::Repl { wallet_opts: opts });
    let mut named = wallet(Some("lasegmfs"), DESCRIPTOR);
    named.change_descriptor = None;
    assert_eq!(action, Action::OpenDatabase(named.copy()));
    assert_eq!(session.wallet_opts, Some(named));
}

#[test]
fn a_wallet_that_cannot_be_named_is_not_opened() {
    let subcommand = CliSubCommand::Repl { wallet_opts: wallet(None, "rubbish") };
    let (session, action) = begin(subcommand);
    assert!(matches!(action, Action::Finish(Err(Error::Other(_)))));
    assert_eq!(session.phase, Phase::Finished);
}

#[test]
fn keys_need_no_wallet() {
    let (session, action) = begin(CliSubCommand::Key { subcommand: 'k' });
    assert_eq!(action, Action::RunKey { network: Network::Testnet, command: 'k' });
    assert_eq!(session.wallet_opts, None);
    let (_, action) = step(session, Event::Output(number(1)));
    assert_eq!(action, Action::Finish(Ok("1".to_string())));
}

#[test]
fn a_policy_is_handed_on() {
    let subcommand =
        CliSubCommand::Compile { policy: "pk(A)".to_string(), script_type: "wsh".to_string() };
    let (session, action) = begin(subcommand);
    assert_eq!(
        action,
        Action::Compile {
            network: Network::Testnet,
            policy: "pk(A)".to_string(),
            script_type: "wsh".to_string()
        }
    );
    assert_eq!(step(session, Event::Output(Err(broken()))).1, failed());
}

#[test]
fn a_proof_of_reserves_is_handed_on() {
    let subcommand = CliSubCommand::ExternalReserves {
        message: "m".to_string(),
        psbt: "p".to_string(),
        confirmations: 6,
        addresses: vec!["a".to_string(), "b".to_string()],
        electrum_opts: electrum_opts(),
    };
    let (session, action) = begin(subcommand);
    assert_eq!(
        action,
        Action::CheckReserves {
            network: Network::Testnet,
            message: "m".to_string(),
            psbt: "p".to_string(),
            confirmations: 6,
            addresses: vec!["a".to_string(), "b".to_string()],
            electrum_opts: electrum_opts(),
        }
    );
    let (_, action) = step(session, Event::Output(number(3)));
    assert_eq!(action, Action::Finish(Ok("3".to_string())));
}

#[test]
fn the_prompt_opens_the_wallet_first() {
    let (session, action) = begin(repl());
    assert_eq!(action, Action::OpenDatabase(mine()));
    let (session, action) = step(session, Event::Opened(Ok(())));
    assert_eq!(action, Action::LoadWallet(request()));
    let (session, action) = step(session, Event::Loaded(Ok(())));
    assert_eq!(action, Action::ReadLine);
    assert_eq!(session.phase, Phase::Reading);
}

#[test]
fn blank_and_interrupted_lines_leave_the_prompt_as_it_was() {
    for event in [
        Event::Line("".to_string()),
        Event::Line(" \t ".to_string()),
        Event::Interrupted,
    ] {
        let (session, action) = step(prompt(), event);
        assert_eq!(action, Action::ReadLine);
        assert_eq!(session, prompt());
    }
}

#[test]
fn a_line_is_remembered_and_parsed() {
    let line = "create_tx --to 'a b:1'".to_string();
    let (session, action) = step(prompt(), Event::Line(line.clone()));
    assert_eq!(
        action,
        Action::Parse {
            line,
            words: vec!["create_tx".to_string(), "--to".to_string(), "a b:1".to_string()]
        }
    );
    assert_eq!(session.phase, Phase::Parsing);
}

#[test]
fn a_line_of_separators_is_parsed_as_no_words() {
    let (_, action) = step(prompt(), Event::Line(" ! ".to_string()));
    assert_eq!(action, Action::Parse { line: " ! ".to_string(), words: vec![] });
}

#[test]
fn words_that_are_no_command_are_explained() {
    let (session, action) = step(parsing(), Event::ParseFailed("what?".to_string()));
    assert_eq!(action, Action::Print("what?".to_string()));
    let (session, action) = step(session, Event::Printed);
    assert_eq!(action, Action::ReadLine);
    assert_eq!(session, prompt());
}

#[test]
fn an_online_command_at_the_prompt_connects_each_time() {
    let mut session = prompt();
    for n in [1u8, 2] {
        let (s, _) = step(session, Event::Line("sync".to_string()));
        let (s, action) =
            step(s, Event::Parsed(ReplSubCommand::OnlineWalletSubCommand("sync")));
        assert!(is_electrum(&action));
        let (s, action) = step(s, Event::Connected(Ok(())));
        assert_eq!(action, Action::RunOnline("sync"));
        let (s, action) = step(s, Event::Output(number(n)));
        assert_eq!(action, Action::Print(n.to_string()));
        let (s, action) = step(s, Event::Printed);
        assert_eq!(action, Action::ReadLine);
        session = s;
    }
    assert_eq!(session, prompt());
}

#[test]
fn other_commands_at_the_prompt_run_at_once() {
    let (session, action) = step(parsing(), Event::Parsed(ReplSubCommand::OfflineWalletSubCommand(9)));
    assert_eq!(action, Action::RunOffline { command: 9, wallet_opts: mine() });
    let (session, action) = step(session, Event::Output(number(4)));
    assert_eq!(action, Action::Print("4".to_string()));
    assert_eq!(step(session, Event::Printed).1, Action::ReadLine);

    let (session, action) = step(parsing(), Event::Parsed(ReplSubCommand::KeySubCommand('k')));
    assert_eq!(action, Action::RunKey { network: Network::Testnet, command: 'k' });
    assert_eq!(step(session, Event::Output(number(8))).1, Action::Print("8".to_string()));
}

#[test]
fn a_failed_command_ends_the_prompt() {
    let (session, _) = step(parsing(), Event::Parsed(ReplSubCommand::OfflineWalletSubCommand(9)));
    let (session, action) = step(session, Event::Output(Err(broken())));
    assert_eq!(action, failed());
    assert_eq!(session.phase, Phase::Finished);

    let (session, _) = step(parsing(), Event::Parsed(ReplSubCommand::OnlineWalletSubCommand("s")));
    assert_eq!(step(session, Event::Connected(Err(broken()))).1, failed());
}

#[test]
fn the_prompt_is_left_in_three_ways() {
    let (session, action) = step(parsing(), Event::Parsed(ReplSubCommand::Exit));
    assert_eq!(action, exited());
    assert_eq!(session.phase, Phase::Finished);

    assert_eq!(step(prompt(), Event::Eof).1, exited());

    let (session, action) = step(prompt(), Event::ReadFailed("Utf8Error".to_string()));
    assert_eq!(action, Action::Print("Utf8Error".to_string()));
    assert_eq!(step(session, Event::Printed).1, exited());
}

#[test]
fn compact_filters_get_their_directory_first() {
    let mut built = features();
    built.compact_filters = true;

    let (session, _) = begin_with(built, online());
    let (session, action) = step(session, Event::Opened(Ok(())));
    assert_eq!(action, Action::PrepareStorage);
    let (session, action) = step(session, Event::Prepared(Ok(Some("dir".to_string()))));
    match &action {
        Action::Connect(BlockchainConfig::CompactFilters(c)) => assert_eq!(c.storage_dir, "dir"),
        other => panic!("unexpected {:?}", other),
    }
    assert_eq!(step(session, Event::Connected(Ok(()))).1, Action::LoadWallet(request()));

    let session = step(prompt_with(built), Event::Line("sync".to_string())).0;
    let (session, action) = step(session, Event::Parsed(ReplSubCommand::OnlineWalletSubCommand("s")));
    assert_eq!(action, Action::PrepareStorage);
    assert_eq!(step(session, Event::Prepared(Err(broken()))).1, failed());
}

#[test]
fn a_node_is_asked_for_the_wallet_of_the_descriptor() {
    let mut built = features();
    built.rpc = true;
    let mut opts = wallet(Some("mine"), DESCRIPTOR);
    opts.change_descriptor = None;
    let subcommand = CliSubCommand::Wallet {
        wallet_opts: opts,
        subcommand: WalletSubCommand::OnlineWalletSubCommand("sync"),
    };
    let (session, _) = begin_with(built, subcommand);
    match step(session, Event::Opened(Ok(()))).1 {
        Action::Connect(BlockchainConfig::Rpc(c)) => assert_eq!(c.wallet_name, "lasegmfs"),
        other => panic!("unexpected {:?}", other),
    }

    let (session, _) = begin_with(built, online());
    match step(session, Event::Opened(Ok(()))) {
        (session, Action::Finish(Err(Error::Other(_)))) => {
            assert_eq!(session.phase, Phase::Finished)
        }
        other => panic!("unexpected {:?}", other),
    }
}

#[test]
fn events_come_in_their_own_phase_only() {
    let (session, _) = begin(online());
    assert!(session.can_take::<char>(&Event::Opened(Ok(()))));
    assert!(!session.can_take::<char>(&Event::Loaded(Ok(()))));
    assert!(!session.can_take::<char>(&Event::Eof));

    let (finished, _) = step(prompt(), Event::Eof);
    let events: Vec<Ev> = vec![
        Event::Opened(Ok(())),
        Event::Prepared(Ok(None)),
        Event::Connected(Ok(())),
        Event::Loaded(Ok(())),
        Event::Output(number(1)),
        Event::Line("x".to_string()),
        Event::Interrupted,
        Event::Eof,
        Event::ReadFailed("x".to_string()),
        Event::Parsed(ReplSubCommand::Exit),
        Event::ParseFailed("x".to_string()),
        Event::Printed,
    ];
    for event in &events {
        assert!(!finished.can_take(event));
    }
    let here: Vec<bool> = events.iter().map(|event| parsing().can_take(event)).collect();
    assert_eq!(here.iter().filter(|taken| **taken).count(), 2);
}

#[test]
fn a_program_that_stays_offline_takes_no_online_command() {
    let mut built = features();
    built.electrum = false;
    assert!(!online().is_available(built));
    assert!(offline().is_available(built));
    assert!(repl().is_available(built));
    let session = step(prompt_with(built), Event::Line("sync".to_string())).0;
    assert!(!session.can_take::<char>(&Event::Parsed(ReplSubCommand::OnlineWalletSubCommand("s"))));
    assert!(session.can_take::<char>(&Event::Parsed(ReplSubCommand::OfflineWalletSubCommand(1))));
}

#[test]
fn commands_come_with_their_features() {
    let none = Features {
        electrum: false,
        esplora: false,
        compact_filters: false,
        rpc: false,
        repl: false,
        compiler: false,
        reserves: false,
    };
    let key: Sub = CliSubCommand::Key { subcommand: 'k' };
    let compile: Sub =
        CliSubCommand::Compile { policy: String::new(), script_type: String::new() };
    let reserves: Sub = CliSubCommand::ExternalReserves {
        message: String::new(),
        psbt: String::new(),
        confirmations: 6,
        addresses: vec![],
        electrum_opts: electrum_opts(),
    };
    assert!(!none.can_go_online());
    assert!(Features { rpc: true, ..none }.can_go_online());
    assert!(key.is_available(none));
    assert!(offline().is_available(none));
    assert!(!repl().is_available(none));
    assert!(!compile.is_available(none));
    assert!(compile.is_available(Features { compiler: true, ..none }));
    assert!(!reserves.is_available(Features { reserves: true, ..none }));
    assert!(reserves.is_available(Features { reserves: true, electrum: true, ..none }));
}

const UNCOMPRESSED: &str = "0479be667ef9dcbbac55a06295ce870b07029bfcdb2dce28d959f2815b16f81798483ada7726a3c4655da4fbfc0e1108a8fd17b448a68554199c47d08ffb10d4b8";

#[test]
fn unreadable_descriptors_stop_only_a_connection_to_a_node() {
    let opts = wallet(Some("mine"), &format!("wpkh({})", UNCOMPRESSED));
    let subcommand: Sub = CliSubCommand::Wallet {
        wallet_opts: opts.copy(),
        subcommand: WalletSubCommand::OnlineWalletSubCommand("sync"),
    };
    let mut built = features();
    built.rpc = true;
    let (session, action) = begin_with(built, subcommand);
    assert_eq!(action, Action::OpenDatabase(opts));
    assert!(!session.can_read_descriptors_for::<char>(&Event::Opened(Ok(()))));
    assert_eq!(step(session, Event::Opened(Err(broken()))).1, failed());
}

#[test]
fn a_session_starts_and_advances_only_where_it_can() {
    let cli = |subcommand: Sub| CliOpts { network: Network::Regtest, subcommand };
    let mut offline_only = features();
    offline_only.electrum = false;
    assert_eq!(start(cli(online()), Network::Testnet, Backend::Absent, offline_only), None);

    let unreadable = wallet(None, &format!("wpkh({})", UNCOMPRESSED));
    let subcommand: Sub = CliSubCommand::Repl { wallet_opts: unreadable };
    assert_eq!(start(cli(subcommand), Network::Testnet, Backend::Absent, features()), None);

    let started = start(cli(repl()), Network::Testnet, Backend::Absent, features());
    assert_eq!(started, Some(begin(repl())));

    let (session, _) = begin(online());
    assert_eq!(session.advance::<char>(Event::Eof), None);
    let (session, _) = begin(online());
    let (session, action) = session.advance::<char>(Event::Opened(Ok(()))).unwrap();
    assert!(is_electrum(&action));
    assert!(matches!(session.phase, Phase::Connecting { .. }));

    let mut built = features();
    built.rpc = true;
    let subcommand: Sub = CliSubCommand::Wallet {
        wallet_opts: wallet(Some("mine"), &format!("wpkh({})", UNCOMPRESSED)),
        subcommand: WalletSubCommand::OnlineWalletSubCommand("sync"),
    };
    let (session, _) = begin_with(built, subcommand);
    assert_eq!(session.advance::<char>(Event::Opened(Ok(()))), None);
}

#[test]
fn the_network_of_the_options_plays_no_part() {
    for network in [Network::Bitcoin, Network::Regtest] {
        let opts = CliOpts { network, subcommand: repl() };
        let begun = handle_command(opts, Network::Testnet, Backend::Absent, features());
        assert_eq!(begun, begin(repl()));
    }
}

#[test]
fn the_backend_plays_no_part_in_an_offline_command() {
    let own = || Backend::Electrum { electrum_url: "own".to_string() };
    let opts = CliOpts { network: Network::Testnet, subcommand: offline() };
    let (session, action): (Ses, Act) = handle_command(opts, Network::Testnet, own(), features());
    let (plain, plain_action) = begin(offline());
    assert_eq!(action, plain_action);
    let (session, action) = step(session, Event::Opened(Ok(())));
    let (plain, plain_action) = step(plain, Event::Opened(Ok(())));
    assert_eq!(action, plain_action);
    let (session, action) = step(session, Event::Loaded(Ok(())));
    let (plain, plain_action) = step(plain, Event::Loaded(Ok(())));
    assert_eq!(action, plain_action);
    assert_eq!(session, Session { backend: own(), ..plain });
}

#[test]
fn a_command_tells_the_same_alone_and_at_the_prompt() {
    let (session, _) = begin(offline());
    let (session, _) = step(session, Event::Opened(Ok(())));
    let (session, alone) = step(session, Event::Loaded(Ok(())));
    let (prompt, typed) = step(parsing(), Event::Parsed(ReplSubCommand::OfflineWalletSubCommand(7)));
    assert_eq!(alone, typed);
    assert_eq!(step(session, Event::Output(number(3))).1, Action::Finish(Ok("3".to_string())));
    assert_eq!(step(prompt, Event::Output(number(3))).1, Action::Print("3".to_string()));

    let (_, alone) = begin(CliSubCommand::Key { subcommand: 'k' });
    let (_, typed) = step(parsing(), Event::Parsed(ReplSubCommand::KeySubCommand('k')));
    assert_eq!(alone, typed);
}

#[test]
fn the_wallet_to_load_has_its_descriptors() {
    assert_eq!(new_wallet(Network::Testnet, &wallet(None, "descriptor")), request());
}

#[test]
fn the_wallet_is_opened_once_for_many_commands() {
    let (mut session, mut action) = begin(repl());
    let mut opened = 0;
    let mut loaded = 0;
    let mut connected = 0;
    let mut lines = 0;
    let answer = loop {
        let event = match action {
            Action::OpenDatabase(_) => {
                opened += 1;
                Event::Opened(Ok(()))
            }
            Action::LoadWallet(_) => {
                loaded += 1;
                Event::Loaded(Ok(()))
            }
            Action::Connect(_) => {
                connected += 1;
                Event::Connected(Ok(()))
            }
            Action::ReadLine if lines == 3 => Event::Eof,
            Action::ReadLine => {
                lines += 1;
                Event::Line("sync".to_string())
            }
            Action::Parse { .. } => Event::Parsed(ReplSubCommand::OnlineWalletSubCommand("sync")),
            Action::RunOnline(_) => Event::Output(number(1)),
            Action::Print(_) => Event::Printed,
            Action::Finish(answer) => break answer,
            other => panic!("unexpected {:?}", other),
        };
        (session, action) = step(session, event);
        assert_eq!(session.features, features());
        assert_eq!(session.network, Network::Testnet);
        assert_eq!(session.backend, Backend::Absent);
        assert_eq!(session.wallet_opts, Some(wallet(Some("mine"), "descriptor")));
    };
    assert_eq!(answer, Ok("Exiting REPL".to_string()));
    assert_eq!((opened, loaded, connected), (1, 1, 3));
}

#[test]
fn the_same_event_leads_to_the_same_phase() {
    let line = || Event::Line("get_balance".to_string());
    assert_eq!(step(prompt(), line()), step(prompt(), line()));
    assert_eq!(step(prompt(), Event::Eof), step(prompt(), Event::Eof));
}

fn told(lines: Vec<Ev>) -> Vec<Act> {
    let mut session = prompt();
    let mut actions = Vec::new();
    for event in lines {
        let (s, action) = step(session, event);
        session = s;
        if action != Action::ReadLine {
            actions.push(action);
        }
    }
    actions
}

#[test]
fn a_session_goes_the_same_way_without_lines_that_are_passed_over() {
    let line = || Event::Line("help".to_string());
    let plain = told(vec![line(), Event::ParseFailed("what?".to_string()), Event::Printed, Event::Eof]);
    let spaced = told(vec![
        Event::Interrupted,
        line(),
        Event::ParseFailed("what?".to_string()),
        Event::Printed,
        Event::Line("  ".to_string()),
        Event::Interrupted,
        Event::Eof,
    ]);
    assert_eq!(plain, spaced);
    assert_eq!(plain.last(), Some(&exited()));
}
