//! The four operations of the repository, each in two halves: the statement
//! to send, and what the store's reply means to the caller.

use vstd::prelude::*;
use crate::driver::{classified, classify, Reply};
use crate::error::RepoError;
use crate::statement::Statement;
use crate::student::{name_fits, name_within_limit, InsertStudent, Student};

verus! {

/// What a creation comes to, given the store's reply to the insertion.
pub open spec fn id_outcome(reply: Reply) -> Result<i32, RepoError> {
    match reply {
        Reply::Id(id) => Ok(id),
        Reply::Failure(failure) => Err(classified(failure)),
        _ => Err(RepoError::Connection),
    }
}

/// What a read comes to, given the store's reply to the selection.
pub open spec fn row_outcome(reply: Reply) -> Result<Student, RepoError> {
    match reply {
        Reply::Row(student) => Ok(student),
        Reply::Failure(failure) => Err(classified(failure)),
        _ => Err(RepoError::Connection),
    }
}

/// What an update or a deletion comes to, given the store's reply. The number
/// of rows that changed plays no part: a statement that found no row to change
/// has still been carried out.
pub open spec fn write_outcome(reply: Reply) -> Result<(), RepoError> {
    match reply {
        Reply::Affected(_) => Ok(()),
        Reply::Failure(failure) => Err(classified(failure)),
        _ => Err(RepoError::Connection),
    }
}

/// The statement that creates a record for `student`. A name longer than the
/// column's bound is refused here, before anything is sent.
pub fn insert_student(student: InsertStudent) -> (plan: Result<Statement, RepoError>)
    ensures
        name_within_limit(student.student_name@) ==> plan == Ok::<Statement, RepoError>(
            Statement::Insert { student_name: student.student_name, class: student.class },
        ),
        !name_within_limit(student.student_name@) ==> plan == Err::<Statement, RepoError>(
            RepoError::Constraint,
        ),
{
    if name_fits(student.student_name.as_str()) {
        Ok(Statement::Insert { student_name: student.student_name, class: student.class })
    } else {
        Err(RepoError::Constraint)
    }
}

/// The identifier of the new record, or why none was created.
pub fn inserted_id(reply: Reply) -> (outcome: Result<i32, RepoError>)
    ensures
        outcome == id_outcome(reply),
{
    match reply {
        Reply::Id(id) => Ok(id),
        Reply::Failure(failure) => Err(classify(&failure)),
        _ => Err(RepoError::Connection),
    }
}

/// The statement that reads the record with the identifier `id`.
pub fn get_student(id: i32) -> (plan: Statement)
    ensures
        plan == (Statement::Select { student_id: id }),
{
    Statement::Select { student_id: id }
}

/// The record that was read, or why none was.
pub fn fetched_student(reply: Reply) -> (outcome: Result<Student, RepoError>)
    ensures
        outcome == row_outcome(reply),
{
    match reply {
        Reply::Row(student) => Ok(student),
        Reply::Failure(failure) => Err(classify(&failure)),
        _ => Err(RepoError::Connection),
    }
}

/// The statement that overwrites name and class of the record with the
/// identifier `id`. Whether the name fits is left to the store, which only
/// asks where there is a record to overwrite.
pub fn update_student(id: i32, student_name: String, class: i32) -> (plan: Statement)
    ensures
        plan == (Statement::Update { student_id: id, student_name, class }),
{
    Statement::Update { student_id: id, student_name, class }
}

/// The statement that removes the record with the identifier `id`.
pub fn delete_student(id: i32) -> (plan: Statement)
    ensures
        plan == (Statement::Delete { student_id: id }),
{
    Statement::Delete { student_id: id }
}

/// Whether an update or a deletion was carried out, or why not.
pub fn written(reply: Reply) -> (outcome: Result<(), RepoError>)
    ensures
        outcome == write_outcome(reply),
{
    match reply {
        Reply::Affected(_) => Ok(()),
        Reply::Failure(failure) => Err(classify(&failure)),
        _ => Err(RepoError::Connection),
    }
}

} // verus!
