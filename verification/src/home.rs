//! Where the program keeps its files.
//!
//! A path here is a list of names, to be pushed one after the other onto the home directory of
//! the user.
use vstd::prelude::*;

use crate::error::{Error, ErrorView};
use crate::opts::{Features, WalletOpts};
use crate::text::texts_of;

verus! {

/// What was found on the way to the data directory.
#[derive(Debug, PartialEq, Eq)]
pub enum HomeEvent {
    /// Whether the user has a home directory.
    Home(bool),
    /// Whether the directory of the program exists.
    Exists(bool),
    /// What came of creating it: nothing, or the text of an error.
    Created(Result<(), String>),
}

/// What to do next on the way to the data directory.
#[derive(Debug, PartialEq, Eq)]
pub enum HomeAction {
    /// See whether a directory exists.
    Test(Vec<String>),
    /// Create a directory.
    Create(Vec<String>),
    /// Return the data directory, or why there is none.
    Return(Result<Vec<String>, Error>),
}

/// The directory of the program.
pub open spec fn program_dir() -> Seq<Seq<char>> {
    seq![".bdk-bitcoin"@]
}

/// The directory for the data of the program.
pub open spec fn data_dir(features: Features) -> Seq<Seq<char>> {
    program_dir().push(
        if features.compact_filters {
            "compact_filters"@
        } else {
            "database.sled"@
        },
    )
}

/// What follows what was found: no home directory is a failure, and so is a directory that
/// cannot be created; the directory of the program is created only where it is missing.
pub open spec fn home_answer(features: Features, event: HomeEvent, action: HomeAction) -> bool {
    match event {
        HomeEvent::Home(false) => action matches HomeAction::Return(Err(e)) && e@
            == ErrorView::Generic("home dir not found"@),
        HomeEvent::Home(true) => action matches HomeAction::Test(dir) && texts_of(dir@)
            == program_dir(),
        HomeEvent::Exists(false) => action matches HomeAction::Create(dir) && texts_of(dir@)
            == program_dir(),
        HomeEvent::Created(Err(text)) => action == HomeAction::Return(Err(Error::Generic(text))),
        _ => action matches HomeAction::Return(Ok(dir)) && texts_of(dir@) == data_dir(features),
    }
}

fn new_program_dir() -> (dir: Vec<String>)
    ensures
        texts_of(dir@) == program_dir(),
{
    let mut dir: Vec<String> = Vec::new();
    dir.push(".bdk-bitcoin".to_string());
    assert(texts_of(dir@) =~= program_dir());
    dir
}

fn new_data_dir(features: Features) -> (dir: Vec<String>)
    ensures
        texts_of(dir@) == data_dir(features),
{
    let mut dir = new_program_dir();
    let ghost before = dir@;
    if features.compact_filters {
        dir.push("compact_filters".to_string());
    } else {
        dir.push("database.sled".to_string());
    }
    assert(texts_of(dir@) =~= texts_of(before).push(dir@.last()@));
    dir
}

/// The next step to the data directory, given what the step before found.
pub fn prepare_home_dir(features: Features, event: HomeEvent) -> (action: HomeAction)
    ensures
        home_answer(features, event, action),
{
    match event {
        HomeEvent::Home(found) => if found {
            HomeAction::Test(new_program_dir())
        } else {
            HomeAction::Return(Err(Error::Generic("home dir not found".to_string())))
        },
        HomeEvent::Exists(exists) => if exists {
            HomeAction::Return(Ok(new_data_dir(features)))
        } else {
            HomeAction::Create(new_program_dir())
        },
        HomeEvent::Created(created) => match created {
            Ok(()) => HomeAction::Return(Ok(new_data_dir(features))),
            Err(text) => HomeAction::Return(Err(Error::Generic(text))),
        },
    }
}

/// Where the database of a wallet is.
#[derive(Debug, PartialEq, Eq)]
pub struct DatabaseLocation {
    /// The path of the database.
    pub path: Vec<String>,
    /// The tree in the database.
    pub tree: String,
}

/// Whether a place below the data directory is that of the database of a wallet: both the
/// database and the tree in it have the name of the wallet.
pub open spec fn is_place_of(
    location: DatabaseLocation,
    data_dir: Seq<String>,
    opts: WalletOpts,
) -> bool {
    &&& location.path@ == data_dir.push(opts.wallet->0)
    &&& location.tree == opts.wallet->0
}

/// Where the database of a wallet is, given the data directory: both the database and the tree
/// in it have the name of the wallet.
pub fn open_database(data_dir: Vec<String>, wallet_opts: &WalletOpts) -> (location:
    DatabaseLocation)
    requires
        wallet_opts.wallet is Some,
    ensures
        is_place_of(location, data_dir@, *wallet_opts),
{
    let name: &String = wallet_opts.wallet.as_ref().unwrap();
    let mut path = data_dir;
    path.push(name.clone());
    DatabaseLocation { path, tree: name.clone() }
}

/// Below one data directory, the place of a database tells the name of its wallet.
pub proof fn law_place_tells_name(data_dir: Seq<String>, a: WalletOpts, b: WalletOpts)
    requires
        a.wallet is Some,
        b.wallet is Some,
    ensures
        data_dir.push(a.wallet->0) == data_dir.push(b.wallet->0) <==> a.wallet == b.wallet,
{
    assert(data_dir.push(a.wallet->0).last() == a.wallet->0);
    assert(data_dir.push(b.wallet->0).last() == b.wallet->0);
}

/// The database of a wallet is directly below the data directory, and it and its tree are named
/// as the wallet is: two wallets share a place exactly where they share the name.
pub proof fn law_database_is_below_the_data_directory(
    data_dir: Seq<String>,
    a: WalletOpts,
    b: WalletOpts,
    place_a: DatabaseLocation,
    place_b: DatabaseLocation,
)
    requires
        a.wallet is Some,
        b.wallet is Some,
        is_place_of(place_a, data_dir, a),
        is_place_of(place_b, data_dir, b),
    ensures
        place_a.path@.len() == data_dir.len() + 1,
        place_a.path@.take(data_dir.len() as int) == data_dir,
        Some(place_a.path@[data_dir.len() as int]) == a.wallet,
        Some(place_a.tree) == a.wallet,
        place_a.path@ == place_b.path@ <==> a.wallet == b.wallet,
        place_a.tree == place_b.tree <==> a.wallet == b.wallet,
{
    assert(place_a.path@.take(data_dir.len() as int) =~= data_dir);
    law_place_tells_name(data_dir, a, b);
}

/// The way to the data directory: without a home directory it ends at once; the directory of the
/// program is looked for, is created only where it is missing, and a failure to do so is the
/// end. The data directory is below it, with a name of its own for compact filters.
pub proof fn law_way_to_the_data_directory(
    features: Features,
    event: HomeEvent,
    action: HomeAction,
)
    requires
        home_answer(features, event, action),
    ensures
        action is Test <==> event is Home && event->Home_0,
        action is Create <==> event is Exists && !event->Exists_0,
        action is Test ==> action->Test_0@.len() == 1 && action->Test_0@[0]@ == ".bdk-bitcoin"@,
        action is Create ==> action->Create_0@.len() == 1 && action->Create_0@[0]@
            == ".bdk-bitcoin"@,
        event is Home && !event->Home_0 ==> action->Return_0 is Err && action->Return_0->Err_0
            is Generic && action->Return_0->Err_0->Generic_0@ == "home dir not found"@,
        event is Created && event->Created_0 is Err ==> action->Return_0 is Err
            && action->Return_0->Err_0 is Generic && action->Return_0->Err_0->Generic_0
            == event->Created_0->Err_0,
        event == HomeEvent::Exists(true) || event == HomeEvent::Created(Ok(()))
            ==> action->Return_0 is Ok,
        action is Return && action->Return_0 is Ok ==> action->Return_0->Ok_0@.len() == 2
            && action->Return_0->Ok_0@[0]@ == ".bdk-bitcoin"@,
        action is Return && action->Return_0 is Ok && features.compact_filters
            ==> action->Return_0->Ok_0@[1]@ == "compact_filters"@,
        action is Return && action->Return_0 is Ok && !features.compact_filters
            ==> action->Return_0->Ok_0@[1]@ == "database.sled"@,
{
    match action {
        HomeAction::Test(dir) => {
            assert(texts_of(dir@).len() == dir@.len());
            assert(texts_of(dir@)[0] == dir@[0]@);
        },
        HomeAction::Create(dir) => {
            assert(texts_of(dir@).len() == dir@.len());
            assert(texts_of(dir@)[0] == dir@[0]@);
        },
        HomeAction::Return(Ok(dir)) => {
            assert(texts_of(dir@).len() == dir@.len());
            assert(texts_of(dir@)[0] == dir@[0]@);
            assert(texts_of(dir@)[1] == dir@[1]@);
        },
        _ => {},
    }
}

} // verus!
