use timesheet_gen::config::{
    parse_month_string, use_current_repository, use_existing_configuration, Commands, Config,
    ConfigError, ConfigurationChoice, GetCommand, Initialise, Make, RepositoryChoice,
};
use timesheet_gen::utils::{conclude, run, RunOutcome};

pub struct MockConfig {
    pub command: String,
    pub repository_path: Option<String>,
    pub made: std::cell::Cell<bool>,
    pub initialised: std::cell::Cell<bool>,
    pub fails: bool,
}

impl MockConfig {
    fn with(command: &str, fails: bool) -> MockConfig {
        MockConfig {
            command: command.to_string(),
            repository_path: Option::from("path/to/.git/".to_string()),
            made: std::cell::Cell::new(false),
            initialised: std::cell::Cell::new(false),
            fails,
        }
    }
}

impl Make for MockConfig {
    fn make(&self) -> Result<(), String> {
        self.made.set(true);
        if self.fails { Err("no store".to_string()) } else { Ok(()) }
    }
}

impl Initialise for MockConfig {
    fn initialise(&self) -> Result<(), String> {
        self.initialised.set(true);
        if self.fails { Err("no file".to_string()) } else { Ok(()) }
    }
}

impl GetCommand for MockConfig {
    fn get_command(&self) -> Option<Commands> {
        self.command.parse().ok()
    }
}

struct Recorder<'a> {
    inner: &'a MockConfig,
}

impl Make for Recorder<'_> {
    fn make(&self) -> Result<(), String> {
        self.inner.make()
    }
}

impl Initialise for Recorder<'_> {
    fn initialise(&self) -> Result<(), String> {
        self.inner.initialise()
    }
}

impl GetCommand for Recorder<'_> {
    fn get_command(&self) -> Option<Commands> {
        self.inner.get_command()
    }
}

#[test]
fn it_runs_with_make_and_calls_make() {
    let config = MockConfig::with("make", false);
    let outcome = run(Recorder { inner: &config });
    assert!(matches!(outcome, RunOutcome::Made));
    assert!(config.made.get());
    assert!(!config.initialised.get(), "Wrong function called for command");
}

#[test]
fn it_runs_with_init_and_calls_init() {
    let config = MockConfig::with("init", false);
    let outcome = run(Recorder { inner: &config });
    assert!(matches!(outcome, RunOutcome::Initialised));
    assert!(config.initialised.get());
    assert!(!config.made.get(), "Wrong function called for command");
}

#[test]
fn a_failing_command_is_reported() {
    let config = MockConfig::with("-m", true);
    let outcome = run(Recorder { inner: &config });
    assert!(!outcome.succeeded());
    assert_eq!(outcome.message(), "Error generating timesheet: no store");
    let config = MockConfig::with("-i", true);
    let outcome = run(Recorder { inner: &config });
    assert_eq!(outcome.message(), "Error parsing configuration: no file");
}

#[test]
fn an_unknown_command_runs_nothing() {
    let config = MockConfig::with("help", false);
    let outcome = run(Recorder { inner: &config });
    assert!(matches!(outcome, RunOutcome::CommandNotFound));
    assert!(!config.made.get());
    assert!(!config.initialised.get());
    assert_eq!(
        outcome.message(),
        "Command not found. Run 'timesheet-gen help' for list of commands"
    );
}

#[test]
fn outcomes_follow_command_and_result() {
    assert!(matches!(conclude(Some(Commands::Init), Ok(())), RunOutcome::Initialised));
    assert!(matches!(conclude(Some(Commands::Make), Ok(())), RunOutcome::Made));
    assert!(matches!(conclude(None, Ok(())), RunOutcome::CommandNotFound));
    assert!(conclude(Some(Commands::Make), Ok(())).succeeded());
    match conclude(Some(Commands::Init), Err("x".to_string())) {
        RunOutcome::InitialiseFailed(reason) => assert_eq!(reason, "x"),
        _ => panic!("wrong outcome"),
    }
}

#[test]
fn commands_are_read_from_words() {
    assert_eq!(Commands::parse("init"), Ok(Commands::Init));
    assert_eq!(Commands::parse("-i"), Ok(Commands::Init));
    assert_eq!(Commands::parse("make"), Ok(Commands::Make));
    assert_eq!(Commands::parse("-m"), Ok(Commands::Make));
    assert_eq!(
        Commands::parse("mak"),
        Err("'mak' is not a valid value for Commands".to_string())
    );
    assert_eq!("make".parse::<Commands>(), Ok(Commands::Make));
    assert!("Init".parse::<Commands>().is_err());
}

#[test]
fn a_configuration_from_arguments() {
    let args = vec!["timesheet-gen".to_string(), "make".to_string(), "/repo".to_string()];
    let config = Config::new(&args, "/home/tom".to_string()).unwrap();
    assert_eq!(config.command, "make");
    assert_eq!(config.repository_path, Some("/repo".to_string()));
    assert_eq!(config.home_path, "/home/tom");
    assert_eq!(config.get_command(), Some(Commands::Make));
    assert_eq!(config.command_given(), Some(Commands::Make));
    assert_eq!(config.get_filepath(), "/home/tom/.timesheet-gen.txt");
    let args = vec!["timesheet-gen".to_string(), "init".to_string()];
    let config = Config::new(&args, "/home/tom".to_string()).unwrap();
    assert_eq!(config.repository_path, None);
    assert_eq!(config.get_command(), Some(Commands::Init));
}

#[test]
fn too_few_arguments_are_refused() {
    let args = vec!["timesheet-gen".to_string()];
    assert_eq!(Config::new(&args, "/home/tom".to_string()), Err(ConfigError::NotEnoughArguments));
    assert_eq!(Config::new(&Vec::new(), "/home/tom".to_string()), Err(ConfigError::NotEnoughArguments));
    assert_eq!(ConfigError::NotEnoughArguments.message(), "Not enough arguments");
}

#[test]
fn the_repository_to_configure() {
    let args = vec!["timesheet-gen".to_string(), "init".to_string(), "/repo".to_string()];
    let config = Config::new(&args, "/home/tom".to_string()).unwrap();
    assert_eq!(config.repository_to_configure("."), Ok("/repo".to_string()));
    let args = vec!["timesheet-gen".to_string(), "init".to_string()];
    let config = Config::new(&args, "/home/tom".to_string()).unwrap();
    assert_eq!(config.repository_to_configure("."), Ok(".".to_string()));
    assert_eq!(config.repository_to_configure(""), Err(ConfigError::EmptyRepositoryPath));
    assert_eq!(ConfigError::EmptyRepositoryPath.message(), "Error parsing repository path");
}

#[test]
fn answers_about_the_repository() {
    assert_eq!(use_current_repository(Some("")), RepositoryChoice::Current);
    assert_eq!(use_current_repository(Some("y")), RepositoryChoice::Current);
    assert_eq!(use_current_repository(Some("n")), RepositoryChoice::Ask);
    assert_eq!(use_current_repository(Some("what")), RepositoryChoice::Fallback);
    assert_eq!(use_current_repository(None), RepositoryChoice::Fallback);
}

#[test]
fn answers_about_the_configuration() {
    assert_eq!(use_existing_configuration(Some("")), ConfigurationChoice::Keep);
    assert_eq!(use_existing_configuration(Some("y")), ConfigurationChoice::Keep);
    assert_eq!(use_existing_configuration(Some("n")), ConfigurationChoice::Renew);
    assert_eq!(use_existing_configuration(Some("Y")), ConfigurationChoice::Invalid);
    assert_eq!(use_existing_configuration(None), ConfigurationChoice::Invalid);
}

#[test]
fn months_have_names() {
    assert_eq!(parse_month_string(1), Some("January".to_string()));
    assert_eq!(parse_month_string(9), Some("September".to_string()));
    assert_eq!(parse_month_string(12), Some("December".to_string()));
    assert_eq!(parse_month_string(0), None);
    assert_eq!(parse_month_string(13), None);
}
