//! Finding the private data directory.
//!
//! The directory is looked for under the user's home and, failing that,
//! under the working directory.  Looking takes questions about the file
//! system, and the answer to one decides which comes next, so the search
//! is a machine: it names a request, the host carries it out and replies,
//! and the reply moves the search on until it has found the directory or
//! failed.  A regular file in the directory's place ends the search for
//! good: it is never overwritten and no other place is tried.

use vstd::prelude::*;
use vstd::string::*;

verus! {

/// The name of the data directory in the place it is looked for.
pub const DATA_DIR_NAME: &'static str = ".gmpublisher";

/// What the host finds at a path.
#[derive(Clone, Copy, Debug, PartialEq, Eq, Structural)]
pub enum PathKind {
    /// A regular file.
    File,
    /// A directory.
    Directory,
    /// Neither of the two.
    Missing,
}

/// Why there is no data directory.
#[derive(Debug, PartialEq, Eq)]
pub enum DataDirError {
    /// A regular file has the directory's name.
    Occupied { path: String },
    /// There is no home directory to use and the working directory cannot
    /// be told.
    NoWorkingDir { reason: String },
    /// The last place to try has no such directory and none can be made.
    CreateFailed { path: String, reason: String },
}

/// Where the search stands.  `candidate` is the path the directory would
/// have in the place that is being tried.
#[derive(Debug, PartialEq, Eq)]
pub enum DataDirSearch {
    /// Asked what is at the candidate under the home directory.
    Home { candidate: String },
    /// Asked to make the candidate under the home directory.
    HomeCreate { candidate: String },
    /// Asked for the candidate under the working directory.
    WorkingDir,
    /// Asked what is at the candidate under the working directory.
    Cwd { candidate: String },
    /// Asked to make the candidate under the working directory.
    CwdCreate { candidate: String },
    /// The directory is there.
    Found { path: String },
    /// There is no directory and there will be none.
    Failed { error: DataDirError },
}

/// What the search asks of the host.
#[derive(Debug, PartialEq, Eq)]
pub enum DataDirRequest {
    /// Tell what is at `path`.
    Inspect { path: String },
    /// Make the directory `path`.
    Create { path: String },
    /// Tell the path the directory would have under the working directory.
    WorkingDir,
    /// Nothing: the search is over.
    Finish,
}

/// What the host answers.
#[derive(Debug, PartialEq, Eq)]
pub enum DataDirReply {
    /// To `Inspect`.
    Kind(PathKind),
    /// To `Create`: done, or why not.
    Created(Result<(), String>),
    /// To `WorkingDir`: the path, or why there is none.
    WorkingDir(Result<String, String>),
}

/// The text that `{:?}` writes for a string: the string in double quotes,
/// with the characters escaped that a string literal would escape.
pub uninterp spec fn debug_text(text: Seq<char>) -> Seq<char>;

/// Calls `format!` with `{:?}` on a string, which goes to the standard
/// library's `Debug` for `str`.  The contract only gives that text its name.
#[verifier::external_body]
fn quote(text: &str) -> (quoted: String)
    ensures
        quoted@ == debug_text(text@),
{
    format!("{:?}", text)
}

/// Says that the file whose path, in quotes, is `quoted` is in the data
/// directory's place.
pub fn occupied_message(quoted: &str) -> (text: String)
    ensures
        text@ == "This file is present on your system, and shouldn't be: "@ + quoted@,
{
    String::from_str("This file is present on your system, and shouldn't be: ").concat(quoted)
}

impl DataDirError {
    /// What `message` says.
    pub open spec fn message_of(&self) -> Seq<char> {
        match *self {
            DataDirError::Occupied { path } =>
                "This file is present on your system, and shouldn't be: "@ + debug_text(path@),
            DataDirError::NoWorkingDir { reason } => reason@,
            DataDirError::CreateFailed { reason, .. } => reason@,
        }
    }

    /// The error in words, for the user.
    pub fn message(&self) -> (text: String)
        ensures
            text@ == self.message_of(),
    {
        match self {
            DataDirError::Occupied { path } => {
                let quoted = quote(path.as_str());
                occupied_message(quoted.as_str())
            },
            DataDirError::NoWorkingDir { reason } => reason.clone(),
            DataDirError::CreateFailed { reason, .. } => reason.clone(),
        }
    }
}

/// The search before the first request.
pub open spec fn start_of(home: Option<String>) -> DataDirSearch {
    match home {
        Some(candidate) => DataDirSearch::Home { candidate },
        None => DataDirSearch::WorkingDir,
    }
}

/// The search after a reply.  A reply that does not answer the pending
/// request changes nothing, and a search that is over stays as it is.
pub open spec fn step_of(search: DataDirSearch, reply: DataDirReply) -> DataDirSearch {
    match (search, reply) {
        (DataDirSearch::Home { candidate }, DataDirReply::Kind(kind)) => match kind {
            PathKind::File => DataDirSearch::Failed {
                error: DataDirError::Occupied { path: candidate },
            },
            PathKind::Directory => DataDirSearch::Found { path: candidate },
            PathKind::Missing => DataDirSearch::HomeCreate { candidate },
        },
        (DataDirSearch::HomeCreate { candidate }, DataDirReply::Created(created)) => match created {
            Ok(_) => DataDirSearch::Found { path: candidate },
            Err(_) => DataDirSearch::WorkingDir,
        },
        (DataDirSearch::WorkingDir, DataDirReply::WorkingDir(located)) => match located {
            Ok(candidate) => DataDirSearch::Cwd { candidate },
            Err(reason) => DataDirSearch::Failed { error: DataDirError::NoWorkingDir { reason } },
        },
        (DataDirSearch::Cwd { candidate }, DataDirReply::Kind(kind)) => match kind {
            PathKind::File => DataDirSearch::Failed {
                error: DataDirError::Occupied { path: candidate },
            },
            PathKind::Directory => DataDirSearch::Found { path: candidate },
            PathKind::Missing => DataDirSearch::CwdCreate { candidate },
        },
        (DataDirSearch::CwdCreate { candidate }, DataDirReply::Created(created)) => match created {
            Ok(_) => DataDirSearch::Found { path: candidate },
            Err(reason) => DataDirSearch::Failed {
                error: DataDirError::CreateFailed { path: candidate, reason },
            },
        },
        _ => search,
    }
}

impl DataDirSearch {
    /// What is asked of the host in this state.
    pub open spec fn request_of(&self) -> DataDirRequest {
        match *self {
            DataDirSearch::Home { candidate } => DataDirRequest::Inspect { path: candidate },
            DataDirSearch::HomeCreate { candidate } => DataDirRequest::Create { path: candidate },
            DataDirSearch::WorkingDir => DataDirRequest::WorkingDir,
            DataDirSearch::Cwd { candidate } => DataDirRequest::Inspect { path: candidate },
            DataDirSearch::CwdCreate { candidate } => DataDirRequest::Create { path: candidate },
            _ => DataDirRequest::Finish,
        }
    }

    /// What the search has come to, once it is over.
    pub open spec fn outcome_of(&self) -> Option<Result<String, DataDirError>> {
        match *self {
            DataDirSearch::Found { path } => Some(Ok(path)),
            DataDirSearch::Failed { error } => Some(Err(error)),
            _ => None,
        }
    }

    /// Begins the search.  `home` is the path the directory would have
    /// under the user's home directory, or `None` where the user has no
    /// home directory, which is no error: the working directory is tried.
    pub fn start(home: Option<String>) -> (search: Self)
        ensures
            search == start_of(home),
    {
        match home {
            Some(candidate) => DataDirSearch::Home { candidate },
            None => DataDirSearch::WorkingDir,
        }
    }

    /// The request the host is to carry out next.
    pub fn request(&self) -> (request: DataDirRequest)
        ensures
            request == self.request_of(),
    {
        match self {
            DataDirSearch::Home { candidate } => DataDirRequest::Inspect { path: candidate.clone() },
            DataDirSearch::HomeCreate { candidate } => DataDirRequest::Create {
                path: candidate.clone(),
            },
            DataDirSearch::WorkingDir => DataDirRequest::WorkingDir,
            DataDirSearch::Cwd { candidate } => DataDirRequest::Inspect { path: candidate.clone() },
            DataDirSearch::CwdCreate { candidate } => DataDirRequest::Create {
                path: candidate.clone(),
            },
            _ => DataDirRequest::Finish,
        }
    }

    /// Moves the search on by the host's reply to the pending request.
    pub fn advance(self, reply: DataDirReply) -> (next: Self)
        ensures
            next == step_of(self, reply),
    {
        match (self, reply) {
            (DataDirSearch::Home { candidate }, DataDirReply::Kind(kind)) => match kind {
                PathKind::File => DataDirSearch::Failed {
                    error: DataDirError::Occupied { path: candidate },
                },
                PathKind::Directory => DataDirSearch::Found { path: candidate },
                PathKind::Missing => DataDirSearch::HomeCreate { candidate },
            },
            (DataDirSearch::HomeCreate { candidate }, DataDirReply::Created(created)) => match created {
                Ok(_) => DataDirSearch::Found { path: candidate },
                Err(_) => DataDirSearch::WorkingDir,
            },
            (DataDirSearch::WorkingDir, DataDirReply::WorkingDir(located)) => match located {
                Ok(candidate) => DataDirSearch::Cwd { candidate },
                Err(reason) => DataDirSearch::Failed {
                    error: DataDirError::NoWorkingDir { reason },
                },
            },
            (DataDirSearch::Cwd { candidate }, DataDirReply::Kind(kind)) => match kind {
                PathKind::File => DataDirSearch::Failed {
                    error: DataDirError::Occupied { path: candidate },
                },
                PathKind::Directory => DataDirSearch::Found { path: candidate },
                PathKind::Missing => DataDirSearch::CwdCreate { candidate },
            },
            (DataDirSearch::CwdCreate { candidate }, DataDirReply::Created(created)) => match created {
                Ok(_) => DataDirSearch::Found { path: candidate },
                Err(reason) => DataDirSearch::Failed {
                    error: DataDirError::CreateFailed { path: candidate, reason },
                },
            },
            (search, _) => search,
        }
    }

    /// The directory or the error the search has ended with, and `None`
    /// while it is still under way.
    pub fn outcome(self) -> (outcome: Option<Result<String, DataDirError>>)
        ensures
            outcome == self.outcome_of(),
    {
        match self {
            DataDirSearch::Found { path } => Some(Ok(path)),
            DataDirSearch::Failed { error } => Some(Err(error)),
            _ => None,
        }
    }
}

/// A file system as the search sees it: the answer the host gives to each
/// request the search can make.
pub struct DataDirWorld {
    /// The candidate under the home directory, if the user has one.
    pub home: Option<String>,
    /// What is at that candidate.
    pub home_kind: PathKind,
    /// What comes of making it.
    pub home_created: Result<(), String>,
    /// The candidate under the working directory.
    pub cwd: Result<String, String>,
    /// What is at that candidate.
    pub cwd_kind: PathKind,
    /// What comes of making it.
    pub cwd_created: Result<(), String>,
}

impl DataDirWorld {
    /// The data directory under the working directory.
    pub open spec fn in_working_dir(&self) -> Result<String, DataDirError> {
        match self.cwd {
            Err(reason) => Err(DataDirError::NoWorkingDir { reason }),
            Ok(candidate) => match self.cwd_kind {
                PathKind::File => Err(DataDirError::Occupied { path: candidate }),
                PathKind::Directory => Ok(candidate),
                PathKind::Missing => match self.cwd_created {
                    Ok(_) => Ok(candidate),
                    Err(reason) => Err(DataDirError::CreateFailed { path: candidate, reason }),
                },
            },
        }
    }

    /// The data directory of this file system.  It is the candidate under
    /// the home directory if that is a directory or can be made one.  A
    /// regular file there is an error.  In every other case the working
    /// directory decides.
    pub open spec fn resolve(&self) -> Result<String, DataDirError> {
        match self.home {
            Some(candidate) => match self.home_kind {
                PathKind::File => Err(DataDirError::Occupied { path: candidate }),
                PathKind::Directory => Ok(candidate),
                PathKind::Missing => if self.home_created is Ok {
                    Ok(candidate)
                } else {
                    self.in_working_dir()
                },
            },
            None => self.in_working_dir(),
        }
    }

    /// The host's reply to the request that is pending in `search`.
    pub open spec fn reply_to(&self, search: DataDirSearch) -> DataDirReply {
        match search {
            DataDirSearch::Home { .. } => DataDirReply::Kind(self.home_kind),
            DataDirSearch::HomeCreate { .. } => DataDirReply::Created(self.home_created),
            DataDirSearch::WorkingDir => DataDirReply::WorkingDir(self.cwd),
            DataDirSearch::Cwd { .. } => DataDirReply::Kind(self.cwd_kind),
            _ => DataDirReply::Created(self.cwd_created),
        }
    }

    /// The search after the host has answered `rounds` requests.
    pub open spec fn run(&self, search: DataDirSearch, rounds: nat) -> DataDirSearch
        decreases rounds,
    {
        if rounds == 0 {
            search
        } else {
            self.run(step_of(search, self.reply_to(search)), (rounds - 1) as nat)
        }
    }
}

/// The search is over after five replies at most, and it ends with the
/// data directory of the file system it was run on, or with the error that
/// the file system has in its place.
pub proof fn search_resolves(world: DataDirWorld)
    ensures
        world.run(start_of(world.home), 5).outcome_of() == Some(world.resolve()),
{
    reveal_with_fuel(DataDirWorld::run, 6);
}

/// A search that is over stays over: no reply moves it, and it asks for
/// nothing more.  An error it has ended with is final.
pub proof fn search_is_final(search: DataDirSearch, reply: DataDirReply)
    requires
        search.outcome_of() is Some,
    ensures
        step_of(search, reply) == search,
        search.request_of() == DataDirRequest::Finish,
{
}

/// With a home directory, what is at the candidate under it decides: a
/// regular file fails the search with that path, and nothing is made and
/// no other place is asked about; a directory is taken as it is; and where
/// there is neither, it is made and taken.
pub proof fn home_candidate_decides(world: DataDirWorld, candidate: String)
    requires
        world.home == Some(candidate),
    ensures
        world.home_kind == PathKind::File ==> world.run(start_of(world.home), 1)
            == (DataDirSearch::Failed { error: DataDirError::Occupied { path: candidate } }),
        world.home_kind == PathKind::Directory ==> world.run(start_of(world.home), 1)
            == (DataDirSearch::Found { path: candidate }),
        world.home_kind == PathKind::Missing && world.home_created is Ok ==> world.run(
            start_of(world.home),
            2,
        ) == (DataDirSearch::Found { path: candidate }),
{
    reveal_with_fuel(DataDirWorld::run, 3);
}

} // verus!
