//! Dispatch of the command, and the author's details read off a
//! repository's configuration.

use crate::calendar::{CalendarView, TimesheetCalendar};
use crate::config::{Commands, GetCommand, Initialise, Make};
use crate::mock_repo_dep::{USER_EMAIL_KEY, USER_NAME_KEY};
use crate::repo::{namespace_for, Repo, RepoError};
use crate::text::same_text;
use vstd::prelude::*;
use vstd::string::*;

verus! {

/// One entry of a repository's configuration.
#[derive(Debug)]
pub struct ConfigEntry {
    pub name: String,
    pub value: String,
}

/// The entries as pairs of name and value.
pub open spec fn entry_pairs(entries: Seq<ConfigEntry>) -> Seq<(Seq<char>, Seq<char>)> {
    Seq::new(entries.len(), |i: int| (entries[i].name@, entries[i].value@))
}

/// The value of the last entry called `key`; the empty text if there is
/// none.
pub open spec fn last_value(entries: Seq<(Seq<char>, Seq<char>)>, key: Seq<char>) -> Seq<char>
    decreases entries.len(),
{
    if entries.len() == 0 {
        Seq::empty()
    } else if entries.last().0 == key {
        entries.last().1
    } else {
        last_value(entries.drop_last(), key)
    }
}

/// The value of the last entry called `key`; the empty text if there is
/// none.
pub fn find_value(entries: &Vec<ConfigEntry>, key: &str) -> (res: String)
    ensures
        res@ == last_value(entry_pairs(entries@), key@),
{
    let mut found = String::new();
    let mut i: usize = 0;
    assert(entry_pairs(entries@).subrange(0, 0) =~= Seq::empty());
    while i < entries.len()
        invariant
            i <= entries.len(),
            found@ == last_value(entry_pairs(entries@).subrange(0, i as int), key@),
        decreases entries.len() - i,
    {
        let ghost prefix = entry_pairs(entries@).subrange(0, i + 1);
        assert(prefix.drop_last() =~= entry_pairs(entries@).subrange(0, i as int));
        assert(prefix.last() == (entries[i as int].name@, entries[i as int].value@));
        if same_text(entries[i].name.as_str(), key) {
            found = entries[i].value.clone();
        }
        i += 1;
    }
    assert(entry_pairs(entries@).subrange(0, i as int) =~= entry_pairs(entries@));
    found
}

/// Describes the repository at `path` from the entries of its
/// configuration: the author is the last `user.name`, the address the last
/// `user.email`, the namespace is read off the path, and client and calendar
/// are empty.
pub fn find_repository_details(path: &str, entries: &Vec<ConfigEntry>) -> (res: Result<
    Repo,
    RepoError,
>)
    ensures
        match (res, namespace_for(None, path@)) {
            (Ok(repo), Ok(namespace)) => {
                &&& repo.namespace@ == namespace
                &&& repo.path@ == path@
                &&& repo.name@ == last_value(entry_pairs(entries@), USER_NAME_KEY@)
                &&& repo.email@ == last_value(entry_pairs(entries@), USER_EMAIL_KEY@)
                &&& repo.client_name@ == Seq::<char>::empty()
                &&& repo.contact_person@ == Seq::<char>::empty()
                &&& repo.address@ == Seq::<char>::empty()
                &&& repo.timesheet@ == CalendarView::empty()
            },
            (Err(e), Err(f)) => e == f,
            _ => false,
        },
{
    let name = find_value(entries, USER_NAME_KEY);
    let email = find_value(entries, USER_EMAIL_KEY);
    Repo::new(
        None,
        path,
        name,
        email,
        String::new(),
        String::new(),
        String::new(),
        TimesheetCalendar::new(),
    )
}

/// How a run ended.
#[derive(Debug)]
pub enum RunOutcome {
    /// The configuration was set up.
    Initialised,
    /// The timesheet was made.
    Made,
    /// Setting up failed, with the reason.
    InitialiseFailed(String),
    /// Making the timesheet failed, with the reason.
    MakeFailed(String),
    /// The word given names no command.
    CommandNotFound,
}

/// How a run of `command` ended, given what the command's work returned.
pub open spec fn outcome_of(command: Option<Commands>, result: Result<(), String>) -> RunOutcome {
    match (command, result) {
        (Some(Commands::Init), Ok(_)) => RunOutcome::Initialised,
        (Some(Commands::Init), Err(reason)) => RunOutcome::InitialiseFailed(reason),
        (Some(Commands::Make), Ok(_)) => RunOutcome::Made,
        (Some(Commands::Make), Err(reason)) => RunOutcome::MakeFailed(reason),
        (None, _) => RunOutcome::CommandNotFound,
    }
}

/// How a run of `command` ended, given what the command's work returned.
pub fn conclude(command: Option<Commands>, result: Result<(), String>) -> (res: RunOutcome)
    ensures
        res == outcome_of(command, result),
{
    match command {
        Some(Commands::Init) => match result {
            Ok(_) => RunOutcome::Initialised,
            Err(reason) => RunOutcome::InitialiseFailed(reason),
        },
        Some(Commands::Make) => match result {
            Ok(_) => RunOutcome::Made,
            Err(reason) => RunOutcome::MakeFailed(reason),
        },
        None => RunOutcome::CommandNotFound,
    }
}

impl RunOutcome {
    /// Whether the run did what was asked.
    pub fn succeeded(&self) -> (res: bool)
        ensures
            res == (*self is Initialised || *self is Made),
    {
        match self {
            RunOutcome::Initialised => true,
            RunOutcome::Made => true,
            _ => false,
        }
    }

    /// What to tell the user.
    pub fn message(&self) -> (res: String)
        ensures
            res@ == match *self {
                RunOutcome::Initialised => "Configuration initialised"@,
                RunOutcome::Made => "Timesheet generated"@,
                RunOutcome::InitialiseFailed(reason) => "Error parsing configuration: "@ + reason@,
                RunOutcome::MakeFailed(reason) => "Error generating timesheet: "@ + reason@,
                RunOutcome::CommandNotFound =>
                    "Command not found. Run 'timesheet-gen help' for list of commands"@,
            },
    {
        match self {
            RunOutcome::Initialised => String::from_str("Configuration initialised"),
            RunOutcome::Made => String::from_str("Timesheet generated"),
            RunOutcome::InitialiseFailed(reason) => String::from_str(
                "Error parsing configuration: ",
            ).concat(reason.as_str()),
            RunOutcome::MakeFailed(reason) => String::from_str(
                "Error generating timesheet: ",
            ).concat(reason.as_str()),
            RunOutcome::CommandNotFound => String::from_str(
                "Command not found. Run 'timesheet-gen help' for list of commands",
            ),
        }
    }
}

/// Does what the command asks: `init` sets up, `make` makes the timesheet,
/// and a word that names no command does neither. What comes back is
/// `conclude` of the command and of what its work returned: setting up ends
/// in `Initialised` or `InitialiseFailed`, making in `Made` or `MakeFailed`,
/// and a word that names no command in `CommandNotFound`.
pub fn run<T: Make + Initialise + GetCommand>(config: T) -> (res: RunOutcome)
    ensures
        match config.command() {
            Some(Commands::Init) => res is Initialised || res is InitialiseFailed,
            Some(Commands::Make) => res is Made || res is MakeFailed,
            None => res is CommandNotFound,
        },
{
    let command = config.get_command();
    match command {
        Some(Commands::Init) => {
            let result = config.initialise();
            conclude(command, result)
        },
        Some(Commands::Make) => {
            let result = config.make();
            conclude(command, result)
        },
        None => RunOutcome::CommandNotFound,
    }
}

} // verus!
