use student_repo::driver::{classify, is_constraint_state, DriverFailure, Reply};
use student_repo::error::RepoError;
use student_repo::repository::{
    delete_student, fetched_student, get_student, insert_student, inserted_id, update_student,
    written,
};
use student_repo::statement::{Statement, Value};
use student_repo::student::{name_fits, InsertStudent, Student, NAME_LIMIT};

fn refusal(code: &str) -> DriverFailure {
    DriverFailure::Database { sqlstate: Some(code.to_string()) }
}

#[test]
fn name_limit_is_fifty() {
    assert_eq!(NAME_LIMIT, 50);
    assert!(name_fits(""));
    assert!(name_fits(&"a".repeat(50)));
    assert!(!name_fits(&"a".repeat(51)));
    assert!(name_fits(&"ß".repeat(50)));
}

#[test]
fn insert_plans_the_statement_with_both_values() {
    let plan = insert_student(InsertStudent { student_name: "Johnny".to_string(), class: 11 });
    assert_eq!(plan, Ok(Statement::Insert { student_name: "Johnny".to_string(), class: 11 }));
}

#[test]
fn insert_refuses_long_name_before_sending() {
    let plan = insert_student(InsertStudent { student_name: "n".repeat(51), class: 11 });
    assert_eq!(plan, Err(RepoError::Constraint));
}

#[test]
fn other_operations_plan_their_statements() {
    assert_eq!(get_student(3), Statement::Select { student_id: 3 });
    assert_eq!(delete_student(5), Statement::Delete { student_id: 5 });
    assert_eq!(
        update_student(10, "Harry".to_string(), 3),
        Statement::Update { student_id: 10, student_name: "Harry".to_string(), class: 3 }
    );
    let long = "n".repeat(51);
    assert_eq!(
        update_student(10, long.clone(), 3),
        Statement::Update { student_id: 10, student_name: long, class: 3 }
    );
}

#[test]
fn statements_have_their_text() {
    assert_eq!(
        Statement::CreateTable.sql(),
        "CREATE TABLE IF NOT EXISTS students (student_id serial PRIMARY KEY, student_name VARCHAR (50) NOT NULL, class INT NOT NULL)"
    );
    let insert = Statement::Insert { student_name: "Johnny".to_string(), class: 11 };
    assert_eq!(
        insert.sql(),
        "INSERT INTO students (student_name, class) VALUES ($1, $2) RETURNING student_id"
    );
    let select = Statement::Select { student_id: 3 };
    assert_eq!(select.sql(), "SELECT * FROM students WHERE student_id = $1");
    let update = Statement::Update { student_id: 10, student_name: "Harry".to_string(), class: 3 };
    assert_eq!(update.sql(), "UPDATE students set student_name=$1, class=$2 where student_id=$3");
    let delete = Statement::Delete { student_id: 5 };
    assert_eq!(delete.sql(), "DELETE FROM students where student_id = $1");
}

#[test]
fn statements_bind_their_values_in_placeholder_order() {
    assert_eq!(Statement::CreateTable.values(), Vec::<Value>::new());
    let insert = Statement::Insert { student_name: "Johnny".to_string(), class: 11 };
    assert_eq!(insert.values(), vec![Value::Text("Johnny".to_string()), Value::Int(11)]);
    let select = Statement::Select { student_id: 3 };
    assert_eq!(select.values(), vec![Value::Int(3)]);
    let update = Statement::Update { student_id: 10, student_name: "Harry".to_string(), class: 3 };
    assert_eq!(
        update.values(),
        vec![Value::Text("Harry".to_string()), Value::Int(3), Value::Int(10)]
    );
    let delete = Statement::Delete { student_id: 5 };
    assert_eq!(delete.values(), vec![Value::Int(5)]);
}

#[test]
fn codes_of_classes_22_and_23_tell_of_a_constraint() {
    assert!(is_constraint_state("22001"));
    assert!(is_constraint_state("2200H"));
    assert!(is_constraint_state("23502"));
    assert!(!is_constraint_state("08006"));
    assert!(!is_constraint_state("42P01"));
    assert!(!is_constraint_state("2200"));
    assert!(!is_constraint_state("220011"));
    assert!(!is_constraint_state(""));
    assert!(!is_constraint_state("32001"));
}

#[test]
fn each_failure_has_its_error() {
    assert_eq!(classify(&DriverFailure::RowNotFound), RepoError::NotFound);
    assert_eq!(classify(&DriverFailure::Misconfigured), RepoError::Configuration);
    assert_eq!(classify(&DriverFailure::Unavailable), RepoError::Connection);
    assert_eq!(classify(&refusal("22001")), RepoError::Constraint);
    assert_eq!(classify(&refusal("23505")), RepoError::Constraint);
    assert_eq!(classify(&refusal("57P01")), RepoError::Connection);
    assert_eq!(classify(&DriverFailure::Database { sqlstate: None }), RepoError::Connection);
}

#[test]
fn reply_to_insert_gives_the_identifier() {
    assert_eq!(inserted_id(Reply::Id(7)), Ok(7));
    assert_eq!(inserted_id(Reply::Failure(refusal("22001"))), Err(RepoError::Constraint));
    assert_eq!(inserted_id(Reply::Failure(DriverFailure::Unavailable)), Err(RepoError::Connection));
    assert_eq!(inserted_id(Reply::Affected(1)), Err(RepoError::Connection));
}

#[test]
fn reply_to_select_gives_the_record() {
    let row = Student { student_id: 3, student_name: "Ada".to_string(), class: 7 };
    let same = Student { student_id: 3, student_name: "Ada".to_string(), class: 7 };
    assert_eq!(fetched_student(Reply::Row(row)), Ok(same));
    assert_eq!(
        fetched_student(Reply::Failure(DriverFailure::RowNotFound)),
        Err(RepoError::NotFound)
    );
    assert_eq!(
        fetched_student(Reply::Failure(DriverFailure::Unavailable)),
        Err(RepoError::Connection)
    );
    assert_eq!(fetched_student(Reply::Id(3)), Err(RepoError::Connection));
}

#[test]
fn reply_to_a_write_ignores_the_number_of_rows() {
    assert_eq!(written(Reply::Affected(0)), Ok(()));
    assert_eq!(written(Reply::Affected(1)), Ok(()));
    assert_eq!(written(Reply::Failure(DriverFailure::Unavailable)), Err(RepoError::Connection));
    assert_eq!(written(Reply::Failure(refusal("22001"))), Err(RepoError::Constraint));
    assert_eq!(written(Reply::Id(1)), Err(RepoError::Connection));
}

#[test]
fn errors_have_labels_and_kinds() {
    assert_eq!(RepoError::Configuration.label(), "configuration error");
    assert_eq!(RepoError::Connection.label(), "connection error");
    assert_eq!(RepoError::NotFound.label(), "not found");
    assert_eq!(RepoError::Constraint.label(), "constraint error");
    assert!(RepoError::Connection.is_storage_error());
    assert!(RepoError::Constraint.is_storage_error());
    assert!(!RepoError::NotFound.is_storage_error());
    assert!(!RepoError::Configuration.is_storage_error());
}
