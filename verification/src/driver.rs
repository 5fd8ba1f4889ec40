//! What the store's driver reports, as plain values, and what each report
//! means to a caller of the repository.

use vstd::prelude::*;
use vstd::string::StrSliceExecFns;
use crate::error::RepoError;
use crate::student::Student;

verus! {

/// A failure as the driver reports it.
#[derive(Clone, Debug, PartialEq, Eq)]
pub enum DriverFailure {
    /// A statement that must return a row returned none.
    RowNotFound,
    /// The database refused the statement. `sqlstate` is the five-character
    /// code that came with the refusal, if one came.
    Database { sqlstate: Option<String> },
    /// The connection string could not be used.
    Misconfigured,
    /// The store could not be reached, or the exchange with it broke down.
    Unavailable,
}

/// What the store answers to one statement.
#[derive(Clone, Debug, PartialEq, Eq)]
pub enum Reply {
    /// The identifier that the store assigned to a new row.
    Id(i32),
    /// The row that was asked for.
    Row(Student),
    /// The statement was carried out and changed this many rows.
    Affected(u64),
    /// The statement was not carried out.
    Failure(DriverFailure),
}

/// A code of the classes 22 (data exception) and 23 (integrity constraint
/// violation): the database refused a value that a column does not take.
pub open spec fn constraint_state(code: Seq<char>) -> bool {
    &&& code.len() == 5
    &&& code[0] == '2'
    &&& (code[1] == '2' || code[1] == '3')
}

/// The repository's error for a failure of the driver. A refusal by the
/// database is a broken constraint where its code says so; every other
/// refusal counts as a store that could not serve the statement.
pub open spec fn classified(failure: DriverFailure) -> RepoError {
    match failure {
        DriverFailure::RowNotFound => RepoError::NotFound,
        DriverFailure::Misconfigured => RepoError::Configuration,
        DriverFailure::Unavailable => RepoError::Connection,
        DriverFailure::Database { sqlstate: Some(code) } => if constraint_state(code@) {
            RepoError::Constraint
        } else {
            RepoError::Connection
        },
        DriverFailure::Database { sqlstate: None } => RepoError::Connection,
    }
}

/// Tests whether a code of the database tells of a broken constraint.
pub fn is_constraint_state(code: &str) -> (b: bool)
    ensures
        b == constraint_state(code@),
{
    if code.unicode_len() != 5 {
        return false;
    }
    let first: char = code.get_char(0);
    let second: char = code.get_char(1);
    first == '2' && (second == '2' || second == '3')
}

/// Maps a failure of the driver to the repository's error.
pub fn classify(failure: &DriverFailure) -> (e: RepoError)
    ensures
        e == classified(*failure),
{
    match failure {
        DriverFailure::RowNotFound => RepoError::NotFound,
        DriverFailure::Misconfigured => RepoError::Configuration,
        DriverFailure::Unavailable => RepoError::Connection,
        DriverFailure::Database { sqlstate: Some(code) } => {
            if is_constraint_state(code.as_str()) {
                RepoError::Constraint
            } else {
                RepoError::Connection
            }
        },
        DriverFailure::Database { sqlstate: None } => RepoError::Connection,
    }
}

} // verus!
