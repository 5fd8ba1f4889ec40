//! A repository of student records.
//!
//! Each of the four operations (create, read, update, delete) is one round
//! trip to a table of students. The library holds what is decided around that
//! round trip: the statement that an operation sends, the check of a name
//! against the column's bound, and what a reply of the store means to the
//! caller. It also holds a table in memory that answers statements as the
//! persistent table is expected to, with the laws of the four operations
//! proved of it.

pub mod error;
pub mod student;
pub mod driver;
pub mod statement;
pub mod repository;
pub mod model;
pub mod table;
pub mod theorems;
pub mod demo;
