//! The statements that the repository sends to the store.

use vstd::prelude::*;

verus! {

/// A value bound to a placeholder of a statement.
#[derive(Clone, Debug, PartialEq, Eq)]
pub enum Value {
    Text(String),
    Int(i32),
}

/// A bound value as a mathematical value.
pub enum BoundValue {
    Text(Seq<char>),
    Int(int),
}

impl View for Value {
    type V = BoundValue;

    open spec fn view(&self) -> BoundValue {
        match self {
            Value::Text(text) => BoundValue::Text(text@),
            Value::Int(n) => BoundValue::Int(*n as int),
        }
    }
}

/// One parameterized statement. The fields are the values bound to its
/// placeholders.
#[derive(Clone, Debug, PartialEq, Eq)]
pub enum Statement {
    /// Creates the table of students unless it exists.
    CreateTable,
    /// Adds a row; the store assigns its identifier and returns it.
    Insert { student_name: String, class: i32 },
    /// Fetches the row with an identifier.
    Select { student_id: i32 },
    /// Overwrites name and class of the row with an identifier.
    Update { student_id: i32, student_name: String, class: i32 },
    /// Removes the row with an identifier.
    Delete { student_id: i32 },
}

impl Statement {
    /// The text of the statement, with `$1`, `$2`, ... for the values of
    /// `bound`.
    pub open spec fn sql_text(self) -> Seq<char> {
        match self {
            Statement::CreateTable => "CREATE TABLE IF NOT EXISTS students (student_id serial PRIMARY KEY, student_name VARCHAR (50) NOT NULL, class INT NOT NULL)"@,
            Statement::Insert { .. } => "INSERT INTO students (student_name, class) VALUES ($1, $2) RETURNING student_id"@,
            Statement::Select { .. } => "SELECT * FROM students WHERE student_id = $1"@,
            Statement::Update { .. } => "UPDATE students set student_name=$1, class=$2 where student_id=$3"@,
            Statement::Delete { .. } => "DELETE FROM students where student_id = $1"@,
        }
    }

    /// The values that the statement binds: the first for `$1`, the second
    /// for `$2`, and so on.
    pub open spec fn bound(self) -> Seq<BoundValue> {
        match self {
            Statement::CreateTable => seq![],
            Statement::Insert { student_name, class } => seq![
                BoundValue::Text(student_name@),
                BoundValue::Int(class as int),
            ],
            Statement::Select { student_id } => seq![BoundValue::Int(student_id as int)],
            Statement::Update { student_id, student_name, class } => seq![
                BoundValue::Text(student_name@),
                BoundValue::Int(class as int),
                BoundValue::Int(student_id as int),
            ],
            Statement::Delete { student_id } => seq![BoundValue::Int(student_id as int)],
        }
    }

    /// The text to hand to the driver.
    pub fn sql(&self) -> (text: &'static str)
        ensures
            text@ == self.sql_text(),
    {
        match self {
            Statement::CreateTable => "CREATE TABLE IF NOT EXISTS students (student_id serial PRIMARY KEY, student_name VARCHAR (50) NOT NULL, class INT NOT NULL)",
            Statement::Insert { .. } => "INSERT INTO students (student_name, class) VALUES ($1, $2) RETURNING student_id",
            Statement::Select { .. } => "SELECT * FROM students WHERE student_id = $1",
            Statement::Update { .. } => "UPDATE students set student_name=$1, class=$2 where student_id=$3",
            Statement::Delete { .. } => "DELETE FROM students where student_id = $1",
        }
    }

    /// The values to bind, in the order of their placeholders.
    pub fn values(&self) -> (values: Vec<Value>)
        ensures
            values@.len() == self.bound().len(),
            forall|i: int| 0 <= i < values@.len() ==> (#[trigger] values@[i])@ == self.bound()[i],
    {
        match self {
            Statement::CreateTable => Vec::new(),
            Statement::Insert { student_name, class } => vec![
                Value::Text(student_name.clone()),
                Value::Int(*class),
            ],
            Statement::Select { student_id } => vec![Value::Int(*student_id)],
            Statement::Update { student_id, student_name, class } => vec![
                Value::Text(student_name.clone()),
                Value::Int(*class),
                Value::Int(*student_id),
            ],
            Statement::Delete { student_id } => vec![Value::Int(*student_id)],
        }
    }
}

} // verus!
