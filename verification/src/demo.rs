//! The fixed sequence of operations that the program runs once, and what it
//! has to say after each.

use vstd::prelude::*;
use crate::driver::Reply;
use crate::error::RepoError;
use crate::repository::{
    delete_student, fetched_student, get_student, id_outcome, insert_student, inserted_id,
    row_outcome, update_student, write_outcome, written,
};
use crate::statement::Statement;
use crate::student::{InsertStudent, Student};

verus! {

/// Where the sequence stands.
#[derive(Clone, Copy, Debug, PartialEq, Eq, Structural)]
pub enum Step {
    Insert,
    Read,
    Delete,
    Update,
    Finished,
}

/// What becomes of an operation's failure at the call site.
#[derive(Clone, Copy, Debug, PartialEq, Eq, Structural)]
pub enum ReportMode {
    /// A failed operation is passed over without a word.
    Lenient,
    /// A failed operation is reported with its error.
    Strict,
}

/// What there is to say after one step.
#[derive(Clone, Debug, PartialEq, Eq)]
pub enum Notice {
    /// A record was created under this identifier.
    Inserted(i32),
    /// This record was read.
    Fetched(Student),
    /// The deletion was carried out.
    Deleted,
    /// The update was carried out.
    Updated,
    /// The step failed, and the mode asks to say so.
    Failed(RepoError),
    /// Nothing.
    Silent,
}

/// The step that follows `step`.
pub open spec fn following(step: Step) -> Step {
    match step {
        Step::Insert => Step::Read,
        Step::Read => Step::Delete,
        Step::Delete => Step::Update,
        Step::Update => Step::Finished,
        Step::Finished => Step::Finished,
    }
}

/// `plan` is the statement of `step`: the creation of Johnny in class 11, the
/// read of record 3, the deletion of record 5, the update of record 10 to
/// Harry in class 3; none once the sequence has finished.
pub open spec fn planned(step: Step, plan: Option<Statement>) -> bool {
    match step {
        Step::Insert => plan matches Some(Statement::Insert { student_name, class })
            && student_name@ == "Johnny"@ && class == 11,
        Step::Read => plan == Some(Statement::Select { student_id: 3 }),
        Step::Delete => plan == Some(Statement::Delete { student_id: 5 }),
        Step::Update => plan matches Some(Statement::Update { student_id, student_name, class })
            && student_id == 10 && student_name@ == "Harry"@ && class == 3,
        Step::Finished => plan is None,
    }
}

/// What a failure comes to under `mode`.
pub open spec fn failure_notice(mode: ReportMode, e: RepoError) -> Notice {
    match mode {
        ReportMode::Lenient => Notice::Silent,
        ReportMode::Strict => Notice::Failed(e),
    }
}

/// What there is to say after `step`, given the store's reply to its
/// statement.
pub open spec fn noticed(step: Step, reply: Reply, mode: ReportMode) -> Notice {
    match step {
        Step::Insert => match id_outcome(reply) {
            Ok(id) => Notice::Inserted(id),
            Err(e) => failure_notice(mode, e),
        },
        Step::Read => match row_outcome(reply) {
            Ok(student) => Notice::Fetched(student),
            Err(e) => failure_notice(mode, e),
        },
        Step::Delete => match write_outcome(reply) {
            Ok(_) => Notice::Deleted,
            Err(e) => failure_notice(mode, e),
        },
        Step::Update => match write_outcome(reply) {
            Ok(_) => Notice::Updated,
            Err(e) => failure_notice(mode, e),
        },
        Step::Finished => Notice::Silent,
    }
}

fn report(mode: ReportMode, e: RepoError) -> (notice: Notice)
    ensures
        notice == failure_notice(mode, e),
{
    match mode {
        ReportMode::Lenient => Notice::Silent,
        ReportMode::Strict => Notice::Failed(e),
    }
}

impl Step {
    /// The first step of the sequence.
    pub fn first() -> (step: Step)
        ensures
            step == Step::Insert,
    {
        Step::Insert
    }

    /// The step after this one. A failure does not end the sequence: the next
    /// step is the same whatever the last one came to.
    pub fn next(&self) -> (step: Step)
        ensures
            step == following(*self),
    {
        match self {
            Step::Insert => Step::Read,
            Step::Read => Step::Delete,
            Step::Delete => Step::Update,
            Step::Update => Step::Finished,
            Step::Finished => Step::Finished,
        }
    }

    /// The statement to send at this step, if there is one left.
    pub fn statement(&self) -> (plan: Option<Statement>)
        ensures
            planned(*self, plan),
    {
        match self {
            Step::Insert => {
                let new_student = InsertStudent { student_name: "Johnny".to_owned(), class: 11 };
                proof {
                    reveal_strlit("Johnny");
                }
                match insert_student(new_student) {
                    Ok(stmt) => Some(stmt),
                    Err(_) => None,
                }
            },
            Step::Read => Some(get_student(3)),
            Step::Delete => Some(delete_student(5)),
            Step::Update => Some(update_student(10, "Harry".to_owned(), 3)),
            Step::Finished => None,
        }
    }

    /// What there is to say after this step, given the reply to its statement.
    pub fn notice(&self, reply: Reply, mode: ReportMode) -> (notice: Notice)
        ensures
            notice == noticed(*self, reply, mode),
    {
        match self {
            Step::Insert => match inserted_id(reply) {
                Ok(id) => Notice::Inserted(id),
                Err(e) => report(mode, e),
            },
            Step::Read => match fetched_student(reply) {
                Ok(student) => Notice::Fetched(student),
                Err(e) => report(mode, e),
            },
            Step::Delete => match written(reply) {
                Ok(_) => Notice::Deleted,
                Err(e) => report(mode, e),
            },
            Step::Update => match written(reply) {
                Ok(_) => Notice::Updated,
                Err(e) => report(mode, e),
            },
            Step::Finished => Notice::Silent,
        }
    }
}

} // verus!
