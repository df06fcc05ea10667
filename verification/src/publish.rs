//! The decisions of a publication. The store is out of reach from here: the
//! caller carries each request to it and hands back what it answered, and
//! the functions below decide what follows.

use crate::calendar::TimesheetCalendar;
use crate::repo::Repo;
use crate::token::{generate_random_path, is_token};
use vstd::prelude::*;
use vstd::string::*;

verus! {

/// The seconds after which the store drops a published record.
pub const EXPIRE_AFTER_SECONDS: u32 = 1800;

/// The name of the index that makes the store drop old records.
pub const EXPIRATION_INDEX_NAME: &'static str = "expiration_date";

/// The field of a record that holds its time of creation.
pub const CREATION_FIELD: &'static str = "creation_date";

/// The address under which every token is published.
pub const BASE_ADDRESS: &'static str = "https://timesheet-gen.io/";

/// The database that holds the published records.
pub const DATABASE_NAME: &'static str = "timesheet-gen";

/// The collection that holds the published records.
pub const COLLECTION_NAME: &'static str = "timesheet-temp-paths";

/// Where a publication stands.
#[derive(Clone, Copy, Debug, PartialEq, Eq, Structural)]
pub enum Phase {
    /// The store is asked whether the token is in use.
    CheckingToken,
    /// The store is asked for the names of its indexes.
    ListingIndexes,
    /// The store is asked to create the expiration index.
    CreatingIndex,
    /// The store is asked to insert the record.
    Inserting,
    /// The record is in the store.
    Published,
    /// The store could not be reached, or answered out of turn.
    Failed,
}

/// What the caller is to do next.
#[derive(Clone, Copy, Debug, PartialEq, Eq, Structural)]
pub enum StoreRequest {
    /// Ask whether a record with the publication's token exists.
    CheckToken,
    /// Ask for the names of the collection's indexes.
    ListIndexNames,
    /// Create the expiration index.
    CreateIndex,
    /// Insert the record under the publication's token.
    Insert,
    /// Hand the address to the user.
    Finish,
    /// Report the failure.
    Abort,
}

/// What the store answered.
#[derive(Debug)]
pub enum StoreReply {
    /// Whether the token asked about is in use.
    TokenTaken(bool),
    /// The names of the collection's indexes.
    IndexNames(Vec<String>),
    /// The index was created.
    IndexCreated,
    /// The record was inserted.
    Inserted,
    /// The request failed.
    Unreachable,
}

/// A reply of the store as a mathematical value.
pub enum ReplyView {
    TokenTaken(bool),
    IndexNames(Seq<Seq<char>>),
    IndexCreated,
    Inserted,
    Unreachable,
}

impl DeepView for StoreReply {
    type V = ReplyView;

    open spec fn deep_view(&self) -> ReplyView {
        match self {
            StoreReply::TokenTaken(taken) => ReplyView::TokenTaken(*taken),
            StoreReply::IndexNames(names) => ReplyView::IndexNames(names.deep_view()),
            StoreReply::IndexCreated => ReplyView::IndexCreated,
            StoreReply::Inserted => ReplyView::Inserted,
            StoreReply::Unreachable => ReplyView::Unreachable,
        }
    }
}

/// Whether the expiration index is among `names`.
pub open spec fn has_expiration_index(names: Seq<Seq<char>>) -> bool {
    names.contains(EXPIRATION_INDEX_NAME@)
}

/// The phase that follows `phase` once the store has answered `reply`. A
/// token in use is replaced and checked again; the index is created only
/// where the store does not list it; any failure, and any answer that the
/// phase did not ask for, ends the publication.
pub open spec fn next_phase(phase: Phase, reply: ReplyView) -> Phase {
    match (phase, reply) {
        (Phase::CheckingToken, ReplyView::TokenTaken(true)) => Phase::CheckingToken,
        (Phase::CheckingToken, ReplyView::TokenTaken(false)) => Phase::ListingIndexes,
        (Phase::ListingIndexes, ReplyView::IndexNames(names)) => if has_expiration_index(names) {
            Phase::Inserting
        } else {
            Phase::CreatingIndex
        },
        (Phase::CreatingIndex, ReplyView::IndexCreated) => Phase::Inserting,
        (Phase::Inserting, ReplyView::Inserted) => Phase::Published,
        _ => Phase::Failed,
    }
}

/// What the caller is asked to do in `phase`.
pub open spec fn request_in(phase: Phase) -> StoreRequest {
    match phase {
        Phase::CheckingToken => StoreRequest::CheckToken,
        Phase::ListingIndexes => StoreRequest::ListIndexNames,
        Phase::CreatingIndex => StoreRequest::CreateIndex,
        Phase::Inserting => StoreRequest::Insert,
        Phase::Published => StoreRequest::Finish,
        Phase::Failed => StoreRequest::Abort,
    }
}

/// Whether a token in use was reported to a publication that asked.
pub open spec fn token_rejected(phase: Phase, reply: ReplyView) -> bool {
    phase == Phase::CheckingToken && reply == ReplyView::TokenTaken(true)
}

/// The index that makes the store drop a record half an hour after its
/// creation.
#[derive(Debug)]
pub struct IndexDefinition {
    pub name: String,
    pub key_field: String,
    pub ascending: bool,
    pub expire_after_seconds: u32,
    pub unique: bool,
}

/// The expiration index: ascending on the time of creation, unique, with the
/// fixed time to live.
pub fn expiration_index() -> (res: IndexDefinition)
    ensures
        res.name@ == EXPIRATION_INDEX_NAME@,
        res.key_field@ == CREATION_FIELD@,
        res.ascending,
        res.expire_after_seconds == EXPIRE_AFTER_SECONDS,
        res.unique,
{
    IndexDefinition {
        name: String::from_str(EXPIRATION_INDEX_NAME),
        key_field: String::from_str(CREATION_FIELD),
        ascending: true,
        expire_after_seconds: EXPIRE_AFTER_SECONDS,
        unique: true,
    }
}

/// Whether the expiration index has to be created, given the names of the
/// indexes that exist.
pub fn needs_expiration_index(names: &Vec<String>) -> (res: bool)
    ensures
        res == !has_expiration_index(names.deep_view()),
{
    let wanted = String::from_str(EXPIRATION_INDEX_NAME);
    !crate::text::contains_string(names, &wanted)
}

/// The address under which `token` is published.
pub fn publish_address(token: &str) -> (res: String)
    ensures
        res@ == BASE_ADDRESS@ + token@,
{
    String::from_str(BASE_ADDRESS).concat(token)
}

/// What is published: the author, the repository, the client, the calendar,
/// the time of creation in milliseconds since the epoch, and the token.
#[derive(Debug, PartialEq)]
pub struct TimesheetRecord {
    pub creation_date: i64,
    pub random_path: String,
    pub name: String,
    pub email: String,
    pub namespace: String,
    pub path: String,
    pub client_name: String,
    pub client_contact_person: String,
    pub address: String,
    pub timesheet: TimesheetCalendar,
}

/// A publication under way: its phase and the token it is to be found
/// under, which always has the shape of a token.
pub struct Publication {
    phase: Phase,
    token: String,
}

impl Publication {
    #[verifier::type_invariant]
    closed spec fn well_formed(&self) -> bool {
        is_token(self.token@)
    }

    /// Where the publication stands.
    pub closed spec fn spec_phase(&self) -> Phase {
        self.phase
    }

    /// The token of the publication.
    pub closed spec fn spec_token(&self) -> Seq<char> {
        self.token@
    }

    /// Where the publication stands.
    pub fn phase(&self) -> (res: Phase)
        ensures
            res == self.spec_phase(),
    {
        self.phase
    }

    /// The token of the publication.
    pub fn token(&self) -> (res: &String)
        ensures
            res@ == self.spec_token(),
            is_token(res@),
    {
        proof {
            use_type_invariant(self);
        }
        &self.token
    }

    /// What the caller is to do next.
    pub fn request(&self) -> (res: StoreRequest)
        ensures
            res == request_in(self.spec_phase()),
    {
        match self.phase {
            Phase::CheckingToken => StoreRequest::CheckToken,
            Phase::ListingIndexes => StoreRequest::ListIndexNames,
            Phase::CreatingIndex => StoreRequest::CreateIndex,
            Phase::Inserting => StoreRequest::Insert,
            Phase::Published => StoreRequest::Finish,
            Phase::Failed => StoreRequest::Abort,
        }
    }

    /// The address to hand to the user, once the record is in the store.
    pub fn address(&self) -> (res: Option<String>)
        ensures
            res is Some <==> self.spec_phase() == Phase::Published,
            res matches Some(a) ==> a@ == BASE_ADDRESS@ + self.spec_token(),
    {
        match self.phase {
            Phase::Published => Some(publish_address(self.token.as_str())),
            _ => None,
        }
    }

    /// The record to insert: what `repo` holds, created at `creation_date`,
    /// under the token of the publication.
    pub fn record(&self, repo: Repo, creation_date: i64) -> (res: TimesheetRecord)
        ensures
            res.creation_date == creation_date,
            res.random_path@ == self.spec_token(),
            is_token(res.random_path@),
            res.name == repo.name,
            res.email == repo.email,
            res.namespace == repo.namespace,
            res.path == repo.path,
            res.client_name == repo.client_name,
            res.client_contact_person == repo.contact_person,
            res.address == repo.address,
            res.timesheet == repo.timesheet,
    {
        proof {
            use_type_invariant(self);
        }
        TimesheetRecord {
            creation_date,
            random_path: self.token.clone(),
            name: repo.name,
            email: repo.email,
            namespace: repo.namespace,
            path: repo.path,
            client_name: repo.client_name,
            client_contact_person: repo.contact_person,
            address: repo.address,
            timesheet: repo.timesheet,
        }
    }

    /// A new publication: a fresh token, to be checked against the store.
    pub fn begin() -> (res: Self)
        ensures
            res.spec_phase() == Phase::CheckingToken,
            is_token(res.spec_token()),
    {
        Publication { phase: Phase::CheckingToken, token: generate_random_path() }
    }

    /// Takes the store's answer and moves on. The phase that follows is
    /// `next_phase`. The token stays, unless the store reported it in use:
    /// then a fresh one takes its place, to be checked in turn.
    pub fn step(self, reply: &StoreReply) -> (res: Self)
        ensures
            res.spec_phase() == next_phase(self.spec_phase(), reply.deep_view()),
            is_token(res.spec_token()),
            !token_rejected(self.spec_phase(), reply.deep_view()) ==> res.spec_token()
                == self.spec_token(),
    {
        proof {
            use_type_invariant(&self);
        }
        match self.phase {
            Phase::CheckingToken => match reply {
                StoreReply::TokenTaken(true) => Publication {
                    phase: Phase::CheckingToken,
                    token: generate_random_path(),
                },
                StoreReply::TokenTaken(false) => Publication {
                    phase: Phase::ListingIndexes,
                    token: self.token,
                },
                _ => Publication { phase: Phase::Failed, token: self.token },
            },
            Phase::ListingIndexes => match reply {
                StoreReply::IndexNames(names) => {
                    if needs_expiration_index(names) {
                        Publication { phase: Phase::CreatingIndex, token: self.token }
                    } else {
                        Publication { phase: Phase::Inserting, token: self.token }
                    }
                },
                _ => Publication { phase: Phase::Failed, token: self.token },
            },
            Phase::CreatingIndex => match reply {
                StoreReply::IndexCreated => Publication {
                    phase: Phase::Inserting,
                    token: self.token,
                },
                _ => Publication { phase: Phase::Failed, token: self.token },
            },
            Phase::Inserting => match reply {
                StoreReply::Inserted => Publication { phase: Phase::Published, token: self.token },
                _ => Publication { phase: Phase::Failed, token: self.token },
            },
            Phase::Published => Publication { phase: Phase::Failed, token: self.token },
            Phase::Failed => Publication { phase: Phase::Failed, token: self.token },
        }
    }
}

/// The index names of a store after a publication that reached it: what was
/// there, and the expiration index if it was not.
pub open spec fn names_after_setup(names: Seq<Seq<char>>) -> Seq<Seq<char>> {
    if has_expiration_index(names) {
        names
    } else {
        names.push(EXPIRATION_INDEX_NAME@)
    }
}

/// Setting up the index twice is setting it up once. On a store without the
/// expiration index the first publication is asked to create it, the second
/// finds it and goes on to insert, and the store then lists the index
/// exactly once. On a store that has it, nothing is created.
pub proof fn lemma_index_created_once(names: Seq<Seq<char>>)
    ensures
        names_after_setup(names_after_setup(names)) == names_after_setup(names),
        has_expiration_index(names_after_setup(names)),
        next_phase(Phase::ListingIndexes, ReplyView::IndexNames(names_after_setup(names)))
            == Phase::Inserting,
        has_expiration_index(names) ==> next_phase(
            Phase::ListingIndexes,
            ReplyView::IndexNames(names),
        ) == Phase::Inserting,
        !has_expiration_index(names) ==> {
            &&& next_phase(Phase::ListingIndexes, ReplyView::IndexNames(names))
                == Phase::CreatingIndex
            &&& forall|i: int|
                0 <= i < names_after_setup(names).len() ==> (#[trigger] names_after_setup(names)[i]
                    == EXPIRATION_INDEX_NAME@ <==> i == names.len())
        },
{
    let after = names_after_setup(names);
    if !has_expiration_index(names) {
        assert(after[names.len() as int] == EXPIRATION_INDEX_NAME@);
        assert forall|i: int| 0 <= i < after.len() implies (#[trigger] after[i]
            == EXPIRATION_INDEX_NAME@ <==> i == names.len()) by {
            if i < names.len() {
                assert(names[i] == after[i]);
            }
        }
    }
}

/// Only a publication that saw its token free, and the expiration index
/// listed or created, is asked to insert; and only one whose record was
/// inserted hands out an address.
pub proof fn lemma_insert_follows_setup(phase: Phase, reply: ReplyView)
    ensures
        next_phase(phase, reply) == Phase::Inserting ==> match reply {
            ReplyView::IndexCreated => phase == Phase::CreatingIndex,
            ReplyView::IndexNames(names) => phase == Phase::ListingIndexes && has_expiration_index(
                names,
            ),
            _ => false,
        },
        next_phase(phase, reply) == Phase::Published ==> phase == Phase::Inserting && reply
            == ReplyView::Inserted,
        next_phase(phase, reply) == Phase::ListingIndexes ==> phase == Phase::CheckingToken
            && reply == ReplyView::TokenTaken(false),
        reply == ReplyView::Unreachable ==> next_phase(phase, reply) == Phase::Failed,
{
}

} // verus!
