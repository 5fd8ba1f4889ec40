//! The failures that an operation of the repository reports.

use vstd::prelude::*;

verus! {

/// Why an operation of the repository failed.
#[derive(Clone, Copy, Debug, PartialEq, Eq, Structural)]
pub enum RepoError {
    /// The connection string is missing or cannot be used.
    Configuration,
    /// The store could not be reached, or could not serve the statement.
    Connection,
    /// No record has the identifier that was asked for.
    NotFound,
    /// A write broke a rule of a column, such as the bound on a name's length.
    Constraint,
}

/// Whether `e` comes from the store itself rather than from the request or the
/// program's settings.
pub open spec fn storage_failure(e: RepoError) -> bool {
    e == RepoError::Connection || e == RepoError::Constraint
}

/// The name under which `e` is reported.
pub open spec fn label_text(e: RepoError) -> Seq<char> {
    match e {
        RepoError::Configuration => "configuration error"@,
        RepoError::Connection => "connection error"@,
        RepoError::NotFound => "not found"@,
        RepoError::Constraint => "constraint error"@,
    }
}

impl RepoError {
    /// True for the failures of the store: an unreachable store and a broken
    /// column rule.
    pub fn is_storage_error(&self) -> (b: bool)
        ensures
            b == storage_failure(*self),
    {
        match self {
            RepoError::Connection => true,
            RepoError::Constraint => true,
            _ => false,
        }
    }

    /// The error's name, for a line of diagnostics.
    pub fn label(&self) -> (text: &'static str)
        ensures
            text@ == label_text(*self),
    {
        match self {
            RepoError::Configuration => "configuration error",
            RepoError::Connection => "connection error",
            RepoError::NotFound => "not found",
            RepoError::Constraint => "constraint error",
        }
    }
}

} // verus!
