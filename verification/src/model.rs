//! The table of students as a mathematical value, and what each statement
//! and each operation of the repository does to it.

use vstd::prelude::*;
use crate::driver::{DriverFailure, Reply};
use crate::error::RepoError;
use crate::statement::Statement;
use crate::student::{name_within_limit, stored, Record, StudentView};

verus! {

/// The state of the table: its rows by identifier, and the identifier that
/// was assigned last (0 while none was).
pub struct TableState {
    pub rows: Map<int, Record>,
    pub last_id: int,
}

/// `reply` is a refusal by the database that carries the code `code`.
pub open spec fn refused_with(reply: Reply, code: Seq<char>) -> bool {
    reply matches Reply::Failure(DriverFailure::Database { sqlstate: Some(c) }) && c@ == code
}

impl TableState {
    /// The table before anything was written.
    pub open spec fn empty() -> TableState {
        TableState { rows: Map::empty(), last_id: 0 }
    }

    /// Identifiers are assigned upwards from 1, so every row's identifier lies
    /// between 1 and the one assigned last.
    pub open spec fn well_formed(self) -> bool {
        &&& 0 <= self.last_id <= i32::MAX
        &&& forall|id: int| #[trigger] self.rows.contains_key(id) ==> 1 <= id <= self.last_id
    }

    /// Whether a row has the identifier `id`.
    pub open spec fn holds(self, id: int) -> bool {
        self.rows.contains_key(id)
    }

    /// No identifier is left to assign.
    pub open spec fn exhausted(self) -> bool {
        self.last_id >= i32::MAX
    }

    /// Whether the table takes a new row with `record`'s values.
    pub open spec fn admits(self, record: Record) -> bool {
        name_within_limit(record.student_name) && !self.exhausted()
    }

    /// Whether the table carries out an overwrite of the row `id` with
    /// `record`'s values. Where there is no such row there is nothing to
    /// refuse.
    pub open spec fn rewrites(self, id: int, record: Record) -> bool {
        self.holds(id) ==> name_within_limit(record.student_name)
    }

    /// The table after an insertion of `record`.
    pub open spec fn after_insert(self, record: Record) -> TableState {
        if self.admits(record) {
            TableState {
                rows: self.rows.insert(self.last_id + 1, record),
                last_id: self.last_id + 1,
            }
        } else {
            self
        }
    }

    /// The table after an overwrite of the row `id` with `record`.
    pub open spec fn after_update(self, id: int, record: Record) -> TableState {
        if self.holds(id) && name_within_limit(record.student_name) {
            TableState { rows: self.rows.insert(id, record), last_id: self.last_id }
        } else {
            self
        }
    }

    /// The table after a removal of the row `id`.
    pub open spec fn after_delete(self, id: int) -> TableState {
        TableState { rows: self.rows.remove(id), last_id: self.last_id }
    }

    /// The table after `stmt`.
    pub open spec fn after(self, stmt: Statement) -> TableState {
        match stmt {
            Statement::CreateTable => self,
            Statement::Insert { student_name, class } => self.after_insert(
                Record { student_name: student_name@, class: class as int },
            ),
            Statement::Select { .. } => self,
            Statement::Update { student_id, student_name, class } => self.after_update(
                student_id as int,
                Record { student_name: student_name@, class: class as int },
            ),
            Statement::Delete { student_id } => self.after_delete(student_id as int),
        }
    }

    /// `reply` is the table's answer to `stmt`. A name that is too long is
    /// refused with the code 22001, an insertion when no identifier is left
    /// with the code 2200H.
    pub open spec fn answers(self, stmt: Statement, reply: Reply) -> bool {
        match stmt {
            Statement::CreateTable => reply == Reply::Affected(0),
            Statement::Insert { student_name, class } => {
                if !name_within_limit(student_name@) {
                    refused_with(reply, "22001"@)
                } else if self.exhausted() {
                    refused_with(reply, "2200H"@)
                } else {
                    reply == Reply::Id((self.last_id + 1) as i32)
                }
            },
            Statement::Select { student_id } => {
                if self.holds(student_id as int) {
                    reply matches Reply::Row(student) && student@ == stored(
                        student_id as int,
                        self.rows[student_id as int],
                    )
                } else {
                    reply == Reply::Failure(DriverFailure::RowNotFound)
                }
            },
            Statement::Update { student_id, student_name, class } => {
                if !self.holds(student_id as int) {
                    reply == Reply::Affected(0)
                } else if name_within_limit(student_name@) {
                    reply == Reply::Affected(1)
                } else {
                    refused_with(reply, "22001"@)
                }
            },
            Statement::Delete { student_id } => {
                if self.holds(student_id as int) {
                    reply == Reply::Affected(1)
                } else {
                    reply == Reply::Affected(0)
                }
            },
        }
    }

    /// What creating `record` returns: the next identifier, or the broken
    /// constraint.
    pub open spec fn create_result(self, record: Record) -> Result<i32, RepoError> {
        if self.admits(record) {
            Ok((self.last_id + 1) as i32)
        } else {
            Err(RepoError::Constraint)
        }
    }

    /// What reading `id` returns: the row, or that there is none.
    pub open spec fn read_result(self, id: int) -> Result<StudentView, RepoError> {
        if self.holds(id) {
            Ok(stored(id, self.rows[id]))
        } else {
            Err(RepoError::NotFound)
        }
    }

    /// What updating `id` with `record` returns. An absent row is no error.
    pub open spec fn update_result(self, id: int, record: Record) -> Result<(), RepoError> {
        if self.rewrites(id, record) {
            Ok(())
        } else {
            Err(RepoError::Constraint)
        }
    }

    /// What deleting `id` returns: success, whether or not the row was there.
    pub open spec fn delete_result(self, id: int) -> Result<(), RepoError> {
        Ok(())
    }
}

} // verus!
