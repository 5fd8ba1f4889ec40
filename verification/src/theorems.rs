//! What holds of the four operations taken together, proved of the table's
//! mathematical state and so of every table whose operations are stated over
//! it.

use vstd::prelude::*;
use crate::driver::Reply;
use crate::error::RepoError;
use crate::model::TableState;
use crate::repository::{id_outcome, row_outcome, write_outcome};
use crate::statement::Statement;
use crate::student::{name_within_limit, stored, Record, StudentView};

verus! {

/// A record that the table admits is created under an identifier, and a read
/// of that identifier then yields exactly the name and class that were given.
pub proof fn created_record_is_read_back(state: TableState, record: Record)
    requires
        state.well_formed(),
        state.admits(record),
    ensures
        state.create_result(record) matches Ok(id) && state.after_insert(record).read_result(
            id as int,
        ) == Ok::<StudentView, RepoError>(stored(id as int, record)),
{
}

/// Updating twice with the same values leaves the table as updating once
/// does, whatever the values and whether or not the record is there.
pub proof fn repeated_update_changes_nothing(state: TableState, id: int, record: Record)
    ensures
        state.after_update(id, record).after_update(id, record) == state.after_update(id, record),
        state.after_update(id, record).update_result(id, record) == state.update_result(
            id,
            record,
        ),
{
    let once = state.after_update(id, record);
    assert(once.after_update(id, record).rows =~= once.rows);
}

/// After an update of a record that is there, with a name that fits, and
/// again after the same update made a second time, a read yields the name and
/// class of the update.
pub proof fn updated_record_is_read_back(state: TableState, id: int, record: Record)
    requires
        state.holds(id),
        name_within_limit(record.student_name),
    ensures
        state.update_result(id, record) == Ok::<(), RepoError>(()),
        state.after_update(id, record).read_result(id) == Ok::<StudentView, RepoError>(
            stored(id, record),
        ),
        state.after_update(id, record).after_update(id, record).read_result(id) == Ok::<
            StudentView,
            RepoError,
        >(stored(id, record)),
{
}

/// A deletion always succeeds, and a read of the deleted identifier then
/// finds nothing.
pub proof fn deleted_record_is_not_found(state: TableState, id: int)
    ensures
        state.delete_result(id) == Ok::<(), RepoError>(()),
        state.after_delete(id).read_result(id) == Err::<StudentView, RepoError>(
            RepoError::NotFound,
        ),
{
}

/// An update or a deletion of an identifier that no record has succeeds and
/// changes nothing, whatever values the update carries.
pub proof fn absent_identifier_is_no_error(state: TableState, id: int, record: Record)
    requires
        !state.holds(id),
    ensures
        state.update_result(id, record) == Ok::<(), RepoError>(()),
        state.after_update(id, record) == state,
        state.delete_result(id) == Ok::<(), RepoError>(()),
        state.after_delete(id) == state,
{
    assert(state.after_delete(id).rows =~= state.rows);
}

/// A creation with a name that is too long fails with `Constraint` and leaves
/// the table without a new row.
pub proof fn long_name_is_refused(state: TableState, record: Record)
    requires
        !name_within_limit(record.student_name),
    ensures
        state.create_result(record) == Err::<i32, RepoError>(RepoError::Constraint),
        state.after_insert(record) == state,
{
}

/// No statement brings an identifier back: the table stays well formed, the
/// identifier assigned last never falls, and the one that a creation assigns
/// is larger than every identifier assigned before, so it names no record
/// that is there or ever was.
pub proof fn identifiers_are_not_reused(state: TableState, stmt: Statement, record: Record)
    requires
        state.well_formed(),
    ensures
        state.after(stmt).well_formed(),
        state.after(stmt).last_id >= state.last_id,
        state.create_result(record) matches Ok(id) ==> id > state.last_id && !state.holds(
            id as int,
        ),
{
}

/// An update changes name and class only: the table has the same identifiers
/// after it as before, and every other record is as it was.
pub proof fn update_keeps_identifiers(state: TableState, id: int, record: Record, other: int)
    ensures
        state.after_update(id, record).holds(other) == state.holds(other),
        other != id ==> state.after_update(id, record).read_result(other) == state.read_result(
            other,
        ),
{
}

/// What the repository makes of the table's answer to an insertion is what
/// creating the record returns, for every name that is sent at all.
pub proof fn creation_follows_the_answer(
    state: TableState,
    student_name: String,
    class: i32,
    reply: Reply,
)
    requires
        name_within_limit(student_name@),
        state.answers(Statement::Insert { student_name, class }, reply),
    ensures
        id_outcome(reply) == state.create_result(
            Record { student_name: student_name@, class: class as int },
        ),
{
    reveal_strlit("2200H");
}

/// What the repository makes of the table's answer to a selection is what
/// reading the identifier returns.
pub proof fn read_follows_the_answer(state: TableState, student_id: i32, reply: Reply)
    requires
        state.answers(Statement::Select { student_id }, reply),
    ensures
        match row_outcome(reply) {
            Ok(student) => state.read_result(student_id as int) == Ok::<StudentView, RepoError>(
                student@,
            ),
            Err(e) => state.read_result(student_id as int) == Err::<StudentView, RepoError>(e),
        },
{
}

/// What the repository makes of the table's answer to an update or to a
/// deletion is what the operation returns.
pub proof fn write_follows_the_answer(
    state: TableState,
    student_id: i32,
    student_name: String,
    class: i32,
    reply: Reply,
)
    ensures
        state.answers(Statement::Update { student_id, student_name, class }, reply)
            ==> write_outcome(reply) == state.update_result(
            student_id as int,
            Record { student_name: student_name@, class: class as int },
        ),
        state.answers(Statement::Delete { student_id }, reply) ==> write_outcome(reply)
            == state.delete_result(student_id as int),
{
    reveal_strlit("22001");
}

} // verus!
