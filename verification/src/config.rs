//! The command line as plain values: the command, the repository it is
//! about, and the answers a user can give when asked.

use crate::text::same_text;
use vstd::prelude::*;
use vstd::string::*;

verus! {

/// The file in the home directory that holds the configuration.
pub const CONFIG_FILE_NAME: &'static str = ".timesheet-gen.txt";

/// What the program can be asked to do.
#[derive(Clone, Copy, Debug, PartialEq, Eq, Structural)]
pub enum Commands {
    Init,
    Make,
}

/// The command that `s` names, if it names one.
pub open spec fn command_of(s: Seq<char>) -> Option<Commands> {
    if s == "init"@ || s == "-i"@ {
        Some(Commands::Init)
    } else if s == "make"@ || s == "-m"@ {
        Some(Commands::Make)
    } else {
        None
    }
}

/// What is said of a word that names no command.
pub open spec fn invalid_command_message(s: Seq<char>) -> Seq<char> {
    "'"@ + s + "' is not a valid value for Commands"@
}

impl Commands {
    /// Reads a command: `init` or `-i`, `make` or `-m`.
    pub fn parse(s: &str) -> (res: Result<Commands, String>)
        ensures
            match res {
                Ok(c) => command_of(s@) == Some(c),
                Err(msg) => command_of(s@) is None && msg@ == invalid_command_message(s@),
            },
    {
        if same_text(s, "init") || same_text(s, "-i") {
            Ok(Commands::Init)
        } else if same_text(s, "make") || same_text(s, "-m") {
            Ok(Commands::Make)
        } else {
            Err(String::from_str("'").concat(s).concat("' is not a valid value for Commands"))
        }
    }
}

impl std::str::FromStr for Commands {
    type Err = String;

    fn from_str(s: &str) -> (res: Result<Self, String>)
        ensures
            match res {
                Ok(c) => command_of(s@) == Some(c),
                Err(msg) => command_of(s@) is None && msg@ == invalid_command_message(s@),
            },
    {
        Commands::parse(s)
    }
}

/// Why the arguments do not make a configuration.
#[derive(Clone, Copy, Debug, PartialEq, Eq, Structural)]
pub enum ConfigError {
    /// Nothing follows the program's name.
    NotEnoughArguments,
    /// No repository path is given and none was chosen.
    EmptyRepositoryPath,
}

impl ConfigError {
    /// The error in words.
    pub fn message(&self) -> (res: String)
        ensures
            res@ == match *self {
                ConfigError::NotEnoughArguments => "Not enough arguments"@,
                ConfigError::EmptyRepositoryPath => "Error parsing repository path"@,
            },
    {
        match self {
            ConfigError::NotEnoughArguments => String::from_str("Not enough arguments"),
            ConfigError::EmptyRepositoryPath => String::from_str("Error parsing repository path"),
        }
    }
}

/// The command, the repository path if one was given, and the home
/// directory.
#[derive(Debug, PartialEq)]
pub struct Config {
    pub command: String,
    pub repository_path: Option<String>,
    pub home_path: String,
}

/// A type that can take a user through the first configuration.
pub trait Onboarding {
    fn onboarding(&self);
}

/// A type that can set up the configuration of a repository.
pub trait Initialise {
    fn initialise(&self) -> Result<(), String>;
}

/// A type that can produce and publish a timesheet.
pub trait Make {
    fn make(&self) -> Result<(), String>;
}

/// A type that knows which command it was given.
pub trait GetCommand {
    /// The command that the value stands for. A type that does not say
    /// leaves it open.
    open spec fn command(&self) -> Option<Commands> {
        arbitrary()
    }

    /// The command that the value stands for.
    fn get_command(&self) -> (res: Option<Commands>)
        ensures
            res == self.command(),
    ;
}

impl GetCommand for Config {
    /// The command that the word given names, if it names one.
    open spec fn command(&self) -> Option<Commands> {
        command_of(self.command@)
    }

    fn get_command(&self) -> (res: Option<Commands>) {
        self.command_given()
    }
}

impl Config {
    /// The command that the word given names, if it names one.
    pub fn command_given(&self) -> (res: Option<Commands>)
        ensures
            res == command_of(self.command@),
    {
        match Commands::parse(self.command.as_str()) {
            Ok(c) => Some(c),
            Err(_) => None,
        }
    }

    /// The configuration that the arguments describe: the word after the
    /// program's name is the command, the one after it, if there is one, the
    /// repository path.
    pub fn new(args: &Vec<String>, home_path: String) -> (res: Result<Config, ConfigError>)
        ensures
            res is Ok <==> args.len() > 1,
            res matches Ok(config) ==> {
                &&& config.command@ == args[1]@
                &&& config.repository_path is Some <==> args.len() > 2
                &&& config.repository_path matches Some(p) ==> p@ == args[2]@
                &&& config.home_path == home_path
            },
            res matches Err(e) ==> e == ConfigError::NotEnoughArguments,
    {
        if args.len() <= 1 {
            return Err(ConfigError::NotEnoughArguments);
        }
        let repository_path = if args.len() > 2 {
            Some(args[2].clone())
        } else {
            None
        };
        Ok(Config { command: args[1].clone(), repository_path, home_path })
    }

    /// Where the configuration file lies: in the home directory.
    pub fn get_filepath(&self) -> (res: String)
        ensures
            res@ == self.home_path@ + "/"@ + CONFIG_FILE_NAME@,
    {
        self.home_path.clone().concat("/").concat(CONFIG_FILE_NAME)
    }

    /// The repository to configure: the path given on the command line, or
    /// else the one `chosen`. An empty path is refused.
    pub fn repository_to_configure(&self, chosen: &str) -> (res: Result<String, ConfigError>)
        ensures
            match res {
                Ok(path) => path@ == configured_path(self.repository_path, chosen@) && path@.len()
                    > 0,
                Err(e) => e == ConfigError::EmptyRepositoryPath && configured_path(
                    self.repository_path,
                    chosen@,
                ).len() == 0,
            },
    {
        let path = match &self.repository_path {
            Some(given) => given.clone(),
            None => String::from_str(chosen),
        };
        if path.as_str().unicode_len() == 0 {
            Err(ConfigError::EmptyRepositoryPath)
        } else {
            Ok(path)
        }
    }
}

/// The path given, or else the one chosen.
pub open spec fn configured_path(given: Option<String>, chosen: Seq<char>) -> Seq<char> {
    match given {
        Some(p) => p@,
        None => chosen,
    }
}

/// Which repository an answer points to.
#[derive(Clone, Copy, Debug, PartialEq, Eq, Structural)]
pub enum RepositoryChoice {
    /// The current directory.
    Current,
    /// A path that is still to be asked for.
    Ask,
    /// The current directory, because the answer was none of those offered.
    Fallback,
}

/// What the answer `option` says about the repository.
pub open spec fn repository_choice(option: Option<Seq<char>>) -> RepositoryChoice {
    match option {
        Some(s) => if s == ""@ || s == "y"@ {
            RepositoryChoice::Current
        } else if s == "n"@ {
            RepositoryChoice::Ask
        } else {
            RepositoryChoice::Fallback
        },
        None => RepositoryChoice::Fallback,
    }
}

/// Which repository the answer points to: the empty answer and `y` mean the
/// current directory, `n` means another path, anything else falls back to
/// the current directory.
pub fn use_current_repository(option: Option<&str>) -> (res: RepositoryChoice)
    ensures
        res == repository_choice(
            match option {
                Some(s) => Some(s@),
                None => None,
            },
        ),
{
    match option {
        Some(s) => {
            if same_text(s, "") || same_text(s, "y") {
                RepositoryChoice::Current
            } else if same_text(s, "n") {
                RepositoryChoice::Ask
            } else {
                RepositoryChoice::Fallback
            }
        },
        None => RepositoryChoice::Fallback,
    }
}

/// What to do with a configuration that exists.
#[derive(Clone, Copy, Debug, PartialEq, Eq, Structural)]
pub enum ConfigurationChoice {
    /// Use it.
    Keep,
    /// Make a new one.
    Renew,
    /// The answer was none of those offered.
    Invalid,
}

/// What the answer `option` says about the configuration found.
pub open spec fn configuration_choice(option: Option<Seq<char>>) -> ConfigurationChoice {
    match option {
        Some(s) => if s == ""@ || s == "y"@ {
            ConfigurationChoice::Keep
        } else if s == "n"@ {
            ConfigurationChoice::Renew
        } else {
            ConfigurationChoice::Invalid
        },
        None => ConfigurationChoice::Invalid,
    }
}

/// What to do with the configuration found: the empty answer and `y` keep
/// it, `n` asks for a new one.
pub fn use_existing_configuration(option: Option<&str>) -> (res: ConfigurationChoice)
    ensures
        res == configuration_choice(
            match option {
                Some(s) => Some(s@),
                None => None,
            },
        ),
{
    match option {
        Some(s) => {
            if same_text(s, "") || same_text(s, "y") {
                ConfigurationChoice::Keep
            } else if same_text(s, "n") {
                ConfigurationChoice::Renew
            } else {
                ConfigurationChoice::Invalid
            }
        },
        None => ConfigurationChoice::Invalid,
    }
}

/// The names of the months, January first.
pub open spec fn month_names() -> Seq<Seq<char>> {
    seq![
        "January"@,
        "February"@,
        "March"@,
        "April"@,
        "May"@,
        "June"@,
        "July"@,
        "August"@,
        "September"@,
        "October"@,
        "November"@,
        "December"@,
    ]
}

/// The name of the month with the number `month`, counted from one.
pub fn parse_month_string(month: u32) -> (res: Option<String>)
    ensures
        res is Some <==> 1 <= month <= 12,
        res matches Some(name) ==> name@ == month_names()[month - 1],
{
    let name = match month {
        1 => "January",
        2 => "February",
        3 => "March",
        4 => "April",
        5 => "May",
        6 => "June",
        7 => "July",
        8 => "August",
        9 => "September",
        10 => "October",
        11 => "November",
        12 => "December",
        _ => {
            return None;
        },
    };
    Some(String::from_str(name))
}

} // verus!
