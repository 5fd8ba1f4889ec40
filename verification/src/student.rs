//! Student records and the bound on a student's name.

use vstd::prelude::*;
use vstd::string::StrSliceExecFns;

verus! {

/// The most characters that the name column takes.
pub const NAME_LIMIT: usize = 50;

/// The mutable part of a record, as mathematical values.
pub struct Record {
    pub student_name: Seq<char>,
    pub class: int,
}

/// A whole record as mathematical values.
pub struct StudentView {
    pub student_id: int,
    pub student_name: Seq<char>,
    pub class: int,
}

/// The record that has `record`'s name and class under the identifier `id`.
pub open spec fn stored(id: int, record: Record) -> StudentView {
    StudentView { student_id: id, student_name: record.student_name, class: record.class }
}

/// One row of the table: the identifier that the store assigned, and the
/// name and class that were written last.
#[derive(Clone, Debug, PartialEq, Eq)]
pub struct Student {
    pub student_id: i32,
    pub student_name: String,
    pub class: i32,
}

impl View for Student {
    type V = StudentView;

    open spec fn view(&self) -> StudentView {
        StudentView {
            student_id: self.student_id as int,
            student_name: self.student_name@,
            class: self.class as int,
        }
    }
}

/// What a caller hands in to have a record created: a record without its
/// identifier, which only the store assigns.
#[derive(Clone, Debug, PartialEq, Eq)]
pub struct InsertStudent {
    pub student_name: String,
    pub class: i32,
}

impl View for InsertStudent {
    type V = Record;

    open spec fn view(&self) -> Record {
        Record { student_name: self.student_name@, class: self.class as int }
    }
}

/// A name that the name column takes: at most `NAME_LIMIT` characters.
pub open spec fn name_within_limit(name: Seq<char>) -> bool {
    name.len() <= NAME_LIMIT
}

/// Tests a name against the column's bound. Characters are counted, not bytes.
pub fn name_fits(name: &str) -> (fits: bool)
    ensures
        fits == name_within_limit(name@),
{
    name.unicode_len() <= NAME_LIMIT
}

} // verus!
