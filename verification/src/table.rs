//! A table of students in memory. It answers the repository's statements as
//! the persistent table does, and so stands in for it where no database
//! server is at hand.

use std::collections::HashMap;
use vstd::prelude::*;
use crate::driver::{DriverFailure, Reply};
use crate::error::RepoError;
use crate::model::TableState;
use crate::repository::{
    delete_student, fetched_student, insert_student, inserted_id, update_student, written,
};
use crate::statement::Statement;
use crate::student::{name_fits, InsertStudent, Record, Student, StudentView};

verus! {

broadcast use vstd::std_specs::hash::group_hash_axioms;

/// Name and class of one row.
#[derive(Debug)]
struct Row {
    student_name: String,
    class: i32,
}

/// The rows by identifier, and the identifier that was assigned last.
#[derive(Debug)]
pub struct StudentTable {
    rows: HashMap<i32, Row>,
    last_id: i32,
}

impl View for StudentTable {
    type V = TableState;

    closed spec fn view(&self) -> TableState {
        TableState {
            rows: Map::new(
                |id: int| i32::MIN <= id <= i32::MAX && self.rows@.contains_key(id as i32),
                |id: int|
                    Record {
                        student_name: self.rows@[id as i32].student_name@,
                        class: self.rows@[id as i32].class as int,
                    },
            ),
            last_id: self.last_id as int,
        }
    }
}

/// The refusal that carries `code`.
fn refusal(code: &str) -> (reply: Reply)
    ensures
        crate::model::refused_with(reply, code@),
{
    Reply::Failure(DriverFailure::Database { sqlstate: Some(code.to_owned()) })
}

impl StudentTable {
    /// An empty table, as the statement that creates the table leaves it.
    pub fn new() -> (table: StudentTable)
        ensures
            table@ == TableState::empty(),
            table@.well_formed(),
    {
        let table = StudentTable { rows: HashMap::new(), last_id: 0 };
        assert(table@.rows =~= Map::<int, Record>::empty());
        table
    }

    /// An empty table that has already assigned the identifiers up to
    /// `last_id`, so that the next record gets the one after it. None where
    /// `last_id` is negative.
    pub fn starting_after(last_id: i32) -> (table: Option<StudentTable>)
        ensures
            last_id < 0 ==> table is None,
            last_id >= 0 ==> (table matches Some(t) && t@ == (TableState {
                rows: Map::<int, Record>::empty(),
                last_id: last_id as int,
            }) && t@.well_formed()),
    {
        if last_id < 0 {
            None
        } else {
            let t = StudentTable { rows: HashMap::new(), last_id };
            assert(t@.rows =~= Map::<int, Record>::empty());
            Some(t)
        }
    }

    /// The answer to the selection of the row `student_id`.
    fn select(&self, student_id: i32) -> (reply: Reply)
        ensures
            self@.answers(Statement::Select { student_id }, reply),
    {
        match self.rows.get(&student_id) {
            Some(row) => Reply::Row(
                Student { student_id, student_name: row.student_name.clone(), class: row.class },
            ),
            None => Reply::Failure(DriverFailure::RowNotFound),
        }
    }

    /// Carries out `stmt` and answers it.
    pub fn execute(&mut self, stmt: &Statement) -> (reply: Reply)
        ensures
            final(self)@ == old(self)@.after(*stmt),
            old(self)@.answers(*stmt, reply),
            old(self)@.well_formed() ==> final(self)@.well_formed(),
    {
        match stmt {
            Statement::CreateTable => Reply::Affected(0),
            Statement::Insert { student_name, class } => {
                if !name_fits(student_name.as_str()) {
                    refusal("22001")
                } else if self.last_id >= i32::MAX {
                    refusal("2200H")
                } else {
                    let id: i32 = self.last_id + 1;
                    self.rows.insert(id, Row { student_name: student_name.clone(), class: *class });
                    self.last_id = id;
                    assert(self@.rows =~= old(self)@.after(*stmt).rows);
                    Reply::Id(id)
                }
            },
            Statement::Select { student_id } => self.select(*student_id),
            Statement::Update { student_id, student_name, class } => {
                if !self.rows.contains_key(student_id) {
                    Reply::Affected(0)
                } else if name_fits(student_name.as_str()) {
                    self.rows.insert(
                        *student_id,
                        Row { student_name: student_name.clone(), class: *class },
                    );
                    assert(self@.rows =~= old(self)@.after(*stmt).rows);
                    Reply::Affected(1)
                } else {
                    refusal("22001")
                }
            },
            Statement::Delete { student_id } => {
                let removed = self.rows.remove(student_id);
                assert(self@.rows =~= old(self)@.after(*stmt).rows);
                match removed {
                    Some(_) => Reply::Affected(1),
                    None => Reply::Affected(0),
                }
            },
        }
    }

    /// Creates a record and returns the identifier that it was given. A name
    /// longer than the column's bound, or a table that has no identifier left,
    /// gives `Constraint` and leaves the table as it was.
    pub fn create(&mut self, student: InsertStudent) -> (outcome: Result<i32, RepoError>)
        ensures
            outcome == old(self)@.create_result(student@),
            final(self)@ == old(self)@.after_insert(student@),
            old(self)@.well_formed() ==> final(self)@.well_formed(),
    {
        match insert_student(student) {
            Ok(stmt) => {
                let reply = self.execute(&stmt);
                proof {
                    reveal_strlit("2200H");
                }
                inserted_id(reply)
            },
            Err(e) => Err(e),
        }
    }

    /// Reads the record with the identifier `id`; `NotFound` where there is
    /// none.
    pub fn read(&self, id: i32) -> (outcome: Result<Student, RepoError>)
        ensures
            match outcome {
                Ok(student) => self@.read_result(id as int) == Ok::<StudentView, RepoError>(
                    student@,
                ),
                Err(e) => self@.read_result(id as int) == Err::<StudentView, RepoError>(e),
            },
    {
        fetched_student(self.select(id))
    }

    /// Overwrites name and class of the record with the identifier `id`.
    /// Where there is no such record nothing happens, and that is no error.
    /// A name that is too long for a record that is there gives `Constraint`.
    pub fn update(&mut self, id: i32, student_name: String, class: i32) -> (outcome: Result<
        (),
        RepoError,
    >)
        ensures
            outcome == old(self)@.update_result(
                id as int,
                Record { student_name: student_name@, class: class as int },
            ),
            final(self)@ == old(self)@.after_update(
                id as int,
                Record { student_name: student_name@, class: class as int },
            ),
            old(self)@.well_formed() ==> final(self)@.well_formed(),
    {
        let stmt = update_student(id, student_name, class);
        let reply = self.execute(&stmt);
        proof {
            reveal_strlit("22001");
        }
        written(reply)
    }

    /// Removes the record with the identifier `id`, if there is one. Where
    /// there is none nothing happens, and that is no error.
    pub fn delete(&mut self, id: i32) -> (outcome: Result<(), RepoError>)
        ensures
            outcome == old(self)@.delete_result(id as int),
            final(self)@ == old(self)@.after_delete(id as int),
            old(self)@.well_formed() ==> final(self)@.well_formed(),
    {
        let stmt = delete_student(id);
        let reply = self.execute(&stmt);
        written(reply)
    }
}

} // verus!
