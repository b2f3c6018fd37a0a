//! Atomic persistence of spreadsheet documents as SQLite database files.
//!
//! A document is saved as a dump, a sequence of SQL statements, which is
//! applied to a new database beside the destination and renamed onto it only
//! when all of it has been applied. A database file is loaded by writing the
//! dump that rebuilds it.
//!
//! The library touches no file. It decides what is to be done next and what
//! the outcome is; the program around it performs each action and reports
//! how it went.

pub mod cmds;
pub mod dump;
pub mod error;
pub mod lossless;
pub mod protocol;
pub mod sqlite_reader;
pub mod sqlite_writer;
pub mod staging;
pub mod text;
pub mod value;
