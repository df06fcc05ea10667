//! What is known of a repository and of the client its work is billed to.

use crate::calendar::TimesheetCalendar;
use crate::pattern::{capture_all, pattern_captures, pattern_is_valid, pattern_replaced, replace_all};
use crate::text::same_text;
use vstd::prelude::*;
use vstd::string::*;

verus! {

/// The directory that holds a `.git` directory, captured as the namespace.
pub const NAMESPACE_PATTERN: &'static str = r"(?P<namespace>[^/][\w\d]+)/\.git/";

/// The capture group that holds the namespace.
pub const NAMESPACE_GROUP: &'static str = "namespace";

/// A comma with the whitespace that follows it.
pub const ADDRESS_SEPARATOR_PATTERN: &'static str = r",\s*";

/// What each separator of an address is replaced with.
pub const ADDRESS_LINE_BREAK: &'static str = ",\n";

/// Why a repository could not be described.
#[derive(Clone, Copy, Debug, PartialEq, Eq, Structural)]
pub enum RepoError {
    /// A pattern did not compile.
    MalformedPattern,
    /// The path does not run through a directory that holds `.git`.
    NamespaceNotFound,
}

/// A repository, its author, the client, and the calendar of the work.
#[derive(Debug, PartialEq)]
pub struct Repo {
    pub namespace: String,
    pub path: String,
    pub name: String,
    pub email: String,
    pub client_name: String,
    pub contact_person: String,
    pub address: String,
    pub timesheet: TimesheetCalendar,
}

/// What to do about the client of a repository.
#[derive(Clone, Copy, Debug, PartialEq, Eq, Structural)]
pub enum ClientChoice {
    /// Ask for the client's details.
    Enter,
    /// Leave the client out.
    Skip,
    /// The answer was none of those offered.
    Invalid,
}

/// What the answer `option` asks for.
pub open spec fn client_choice(option: Seq<char>) -> ClientChoice {
    if option == ""@ || option == "y"@ {
        ClientChoice::Enter
    } else if option == "n"@ {
        ClientChoice::Skip
    } else {
        ClientChoice::Invalid
    }
}

/// What the first match says of the namespace: nothing found is a failure,
/// a match without the group leaves the namespace empty.
pub open spec fn namespace_of(found: Seq<Option<Seq<char>>>) -> Result<Seq<char>, RepoError> {
    if found.len() == 0 {
        Err(RepoError::NamespaceNotFound)
    } else {
        match found[0] {
            Some(s) => Ok(s),
            None => Ok(Seq::empty()),
        }
    }
}

/// The namespace that `new` gives a repository at `path`.
pub open spec fn namespace_for(repo_name: Option<String>, path: Seq<char>) -> Result<
    Seq<char>,
    RepoError,
> {
    match repo_name {
        Some(n) => Ok(n@),
        None => if pattern_is_valid(NAMESPACE_PATTERN@) {
            namespace_of(pattern_captures(NAMESPACE_PATTERN@, NAMESPACE_GROUP@, path))
        } else {
            Err(RepoError::MalformedPattern)
        },
    }
}

/// The namespace that the matches of the namespace pattern stand for.
pub fn namespace_from_captures(found: &Vec<Option<String>>) -> (res: Result<String, RepoError>)
    ensures
        match (res, namespace_of(found.deep_view())) {
            (Ok(n), Ok(m)) => n@ == m,
            (Err(e), Err(f)) => e == f,
            _ => false,
        },
{
    if found.len() == 0 {
        return Err(RepoError::NamespaceNotFound);
    }
    assert(found.deep_view()[0] == found[0].deep_view());
    match &found[0] {
        Some(s) => Ok(s.clone()),
        None => Ok(String::new()),
    }
}

/// The address with every comma, and the whitespace after it, turned into a
/// comma and a line break.
pub fn format_address(address: &str) -> (res: Result<String, RepoError>)
    ensures
        res is Ok <==> pattern_is_valid(ADDRESS_SEPARATOR_PATTERN@),
        res matches Ok(a) ==> a@ == pattern_replaced(
            ADDRESS_SEPARATOR_PATTERN@,
            address@,
            ADDRESS_LINE_BREAK@,
        ),
        res matches Err(e) ==> e == RepoError::MalformedPattern,
{
    match replace_all(ADDRESS_SEPARATOR_PATTERN, address, ADDRESS_LINE_BREAK) {
        Ok(a) => Ok(a),
        Err(_) => Err(RepoError::MalformedPattern),
    }
}

impl Repo {
    /// Describes a repository. A name that is given becomes the namespace;
    /// without one the namespace is the directory that holds `.git`, read
    /// off the path. The rest is taken as it comes.
    pub fn new(
        repo_name: Option<String>,
        git_filepath: &str,
        name: String,
        email: String,
        client_name: String,
        contact_person: String,
        address: String,
        timesheet: TimesheetCalendar,
    ) -> (res: Result<Repo, RepoError>)
        ensures
            match (res, namespace_for(repo_name, git_filepath@)) {
                (Ok(repo), Ok(namespace)) => {
                    &&& repo.namespace@ == namespace
                    &&& repo.path@ == git_filepath@
                    &&& repo.name == name
                    &&& repo.email == email
                    &&& repo.client_name == client_name
                    &&& repo.contact_person == contact_person
                    &&& repo.address == address
                    &&& repo.timesheet == timesheet
                },
                (Err(e), Err(f)) => e == f,
                _ => false,
            },
    {
        let namespace = match repo_name {
            Some(given) => given,
            None => {
                let found = match capture_all(NAMESPACE_PATTERN, NAMESPACE_GROUP, git_filepath) {
                    Ok(found) => found,
                    Err(_) => {
                        return Err(RepoError::MalformedPattern);
                    },
                };
                match namespace_from_captures(&found) {
                    Ok(namespace) => namespace,
                    Err(e) => {
                        return Err(e);
                    },
                }
            },
        };
        Ok(
            Repo {
                namespace,
                path: String::from_str(git_filepath),
                name,
                email,
                client_name,
                contact_person,
                address,
                timesheet,
            },
        )
    }

    /// Records the client: the name and the contact as given, the address
    /// with its commas turned into line breaks. Nothing changes where the
    /// address cannot be formatted.
    pub fn input_client_option(
        &mut self,
        client_name: String,
        contact_person: String,
        address: &str,
    ) -> (res: Result<(), RepoError>)
        ensures
            res is Ok <==> pattern_is_valid(ADDRESS_SEPARATOR_PATTERN@),
            res is Ok ==> {
                &&& final(self).client_name == client_name
                &&& final(self).contact_person == contact_person
                &&& final(self).address@ == pattern_replaced(
                    ADDRESS_SEPARATOR_PATTERN@,
                    address@,
                    ADDRESS_LINE_BREAK@,
                )
                &&& final(self).namespace == old(self).namespace
                &&& final(self).path == old(self).path
                &&& final(self).name == old(self).name
                &&& final(self).email == old(self).email
                &&& final(self).timesheet == old(self).timesheet
            },
            res matches Err(e) ==> e == RepoError::MalformedPattern && *final(self) == *old(self),
    {
        match format_address(address) {
            Ok(formatted) => {
                self.client_name = client_name;
                self.contact_person = contact_person;
                self.address = formatted;
                Ok(())
            },
            Err(e) => Err(e),
        }
    }
}

/// What the answer `option` to the question about a client asks for: the
/// empty answer and `y` ask for the details, `n` leaves the client out.
pub fn use_client_option(option: &str) -> (res: ClientChoice)
    ensures
        res == client_choice(option@),
{
    if same_text(option, "") || same_text(option, "y") {
        ClientChoice::Enter
    } else if same_text(option, "n") {
        ClientChoice::Skip
    } else {
        ClientChoice::Invalid
    }
}

} // verus!
