//! A repository held in memory, with a fixed path and a fixed author, for
//! working without a repository on disk.

use crate::repo::RepoError;
use vstd::prelude::*;

verus! {

/// The path of the repository held in memory.
pub const MOCK_PATH: &'static str = "/path/to/.git/";

/// The author of the repository held in memory.
pub const MOCK_USER_NAME: &'static str = "Tom Jones";

/// The author's address.
pub const MOCK_USER_EMAIL: &'static str = "sex_bomb@gmail.com";

/// The configuration key that holds the author's name.
pub const USER_NAME_KEY: &'static str = "user.name";

/// The configuration key that holds the author's address.
pub const USER_EMAIL_KEY: &'static str = "user.email";

/// One entry of a configuration: a name and its value.
#[derive(Copy, Clone)]
pub struct MockConfigEntry<'a> {
    name: &'a str,
    value: &'a str,
}

impl<'a> MockConfigEntry<'a> {
    /// The name of the entry.
    pub closed spec fn spec_name(&self) -> Seq<char> {
        self.name@
    }

    /// The value of the entry.
    pub closed spec fn spec_value(&self) -> Seq<char> {
        self.value@
    }

    /// The name of the entry.
    pub fn name(&self) -> (res: Option<&str>)
        ensures
            res matches Some(s) && s@ == self.spec_name(),
    {
        Some(self.name)
    }

    /// The value of the entry.
    pub fn value(&self) -> (res: Option<&str>)
        ensures
            res matches Some(s) && s@ == self.spec_value(),
    {
        Some(self.value)
    }
}

/// The repository held in memory.
pub struct MockRepository {}

/// The configuration of the repository held in memory.
pub struct MockConfig {}

impl MockConfig {
    /// The entries of the configuration: the author's name, then the
    /// author's address.
    pub fn entries(&self, _glob: Option<&str>) -> (res: Result<
        Vec<Option<MockConfigEntry<'static>>>,
        RepoError,
    >)
        ensures
            res matches Ok(entries) && {
                &&& entries.len() == 2
                &&& entries[0] matches Some(first) && first.spec_name() == USER_NAME_KEY@
                    && first.spec_value() == MOCK_USER_NAME@
                &&& entries[1] matches Some(second) && second.spec_name() == USER_EMAIL_KEY@
                    && second.spec_value() == MOCK_USER_EMAIL@
            },
    {
        let mut entries: Vec<Option<MockConfigEntry<'static>>> = Vec::new();
        entries.push(Some(MockConfigEntry { name: USER_NAME_KEY, value: MOCK_USER_NAME }));
        entries.push(Some(MockConfigEntry { name: USER_EMAIL_KEY, value: MOCK_USER_EMAIL }));
        Ok(entries)
    }
}

impl MockRepository {
    /// Opens the repository held in memory, whatever the path.
    pub fn open(_path: &str) -> (res: Result<MockRepository, RepoError>)
        ensures
            res is Ok,
    {
        Ok(MockRepository {  })
    }

    /// The path of the repository.
    pub fn path(&self) -> (res: &'static str)
        ensures
            res@ == MOCK_PATH@,
    {
        MOCK_PATH
    }

    /// The configuration of the repository.
    pub fn config(&self) -> (res: Result<MockConfig, RepoError>)
        ensures
            res is Ok,
    {
        Ok(MockConfig {  })
    }
}

} // verus!
