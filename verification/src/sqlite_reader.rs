//! The read path: a database file is opened for reading only, its schema
//! catalog and the rows of its tables are read, the handle is released, and
//! the dump is written from what was read.
//!
//! As on the write path, the library decides and the caller acts: a
//! [`ReadJob`] names the action that is due, and the caller reports a
//! [`ReadEvent`]. A read that fails on the way gives no dump at all.

use vstd::prelude::*;
use crate::dump::{
    catalog_view, dump_text, select_rows, select_statement, table_names, tables_view,
    user_tables, write_dump, Entry, SchemaEntry,
};
use crate::error::{out_of_turn, out_of_turn_message, ReadError, ReadFailure};
use crate::value::{rows_view, Datum, SqlValue};

verus! {

/// The mathematical value of a [`ReadEvent`].
pub enum ReadSignal {
    Opened,
    Missing,
    NotADatabase(Seq<char>),
    Catalog(Seq<Entry>),
    Rows(Seq<Seq<Datum>>),
    Closed,
    Failed(Seq<char>),
}

/// What the caller reports after performing the pending action.
#[derive(Debug)]
pub enum ReadEvent {
    /// The file is open for reading.
    Opened,
    /// There is no file at the source path.
    Missing,
    /// The file is not a database, with the message of the failure.
    NotADatabase(String),
    /// The entries of the schema catalog, in the order asked for.
    Catalog(Vec<SchemaEntry>),
    /// The rows of the table asked for, in the order read.
    Rows(Vec<Vec<SqlValue>>),
    /// The database handle is released.
    Closed,
    /// The pending action failed, with the message of the failure.
    Failed(String),
}

impl View for ReadEvent {
    type V = ReadSignal;

    open spec fn view(&self) -> ReadSignal {
        match self {
            ReadEvent::Opened => ReadSignal::Opened,
            ReadEvent::Missing => ReadSignal::Missing,
            ReadEvent::NotADatabase(m) => ReadSignal::NotADatabase(m@),
            ReadEvent::Catalog(entries) => ReadSignal::Catalog(catalog_view(entries@)),
            ReadEvent::Rows(rows) => ReadSignal::Rows(rows_view(rows@)),
            ReadEvent::Closed => ReadSignal::Closed,
            ReadEvent::Failed(m) => ReadSignal::Failed(m@),
        }
    }
}

/// How far a read has come.
pub enum ReadStage {
    /// The file is to be opened.
    Opening,
    /// The schema catalog is to be read.
    Listing,
    /// The rows of the next table are to be read: `tables` holds those of
    /// the tables before it.
    Reading { catalog: Seq<Entry>, tables: Seq<Seq<Seq<Datum>>> },
    /// The database is to be released, and the read ends as given.
    Closing(Result<Seq<char>, ReadFailure>),
    /// Nothing is left to do.
    Finished(Result<Seq<char>, ReadFailure>),
}

/// The mathematical value of a [`ReadAction`].
pub enum ReadTask {
    OpenDatabase(Seq<char>),
    ReadCatalog(Seq<char>),
    ReadRows(Seq<char>),
    CloseDatabase,
    Finish,
}

/// The one thing the caller has to do next.
#[derive(Debug)]
pub enum ReadAction<'a> {
    /// Open the database file at `path` for reading only, without creating
    /// it.
    OpenDatabase { path: &'a str },
    /// Run `query`, and report each row as an entry of the catalog.
    ReadCatalog { query: &'a str },
    /// Run `statement`, and report the rows that it gives.
    ReadRows { statement: String },
    /// Release the database handle.
    CloseDatabase,
    /// Take the outcome: the job is over.
    Finish,
}

impl<'a> View for ReadAction<'a> {
    type V = ReadTask;

    open spec fn view(&self) -> ReadTask {
        match self {
            ReadAction::OpenDatabase { path } => ReadTask::OpenDatabase(path@),
            ReadAction::ReadCatalog { query } => ReadTask::ReadCatalog(query@),
            ReadAction::ReadRows { statement } => ReadTask::ReadRows(statement@),
            ReadAction::CloseDatabase => ReadTask::CloseDatabase,
            ReadAction::Finish => ReadTask::Finish,
        }
    }
}

/// The mathematical value of a [`ReadJob`].
pub struct ReadModel {
    /// The path of the database file.
    pub source: Seq<char>,
    /// How far the read has come.
    pub stage: ReadStage,
}

/// The query that lists the schema catalog: kind, name and defining
/// statement of every entry, in the order in which they were created.
pub open spec fn catalog_query() -> Seq<char> {
    "SELECT type, name, sql FROM sqlite_master ORDER BY rowid"@
}

/// The message of the failure that a missing file at `source` ends in.
pub open spec fn not_found_message(source: Seq<char>) -> Seq<char> {
    "file not found: "@ + source
}

/// The failure that `signal` stands for where it does not answer the
/// pending action with success.
pub open spec fn failure_of(signal: ReadSignal) -> ReadFailure {
    match signal {
        ReadSignal::NotADatabase(message) => ReadFailure::Format(message),
        ReadSignal::Failed(message) => ReadFailure::Introspection(message),
        _ => ReadFailure::Introspection(out_of_turn()),
    }
}

/// The stage of a read that has the schema `catalog` and the rows `tables`
/// of its first tables: the next table is due, or, where every table has
/// its rows, the release of the database with the dump as the outcome.
pub open spec fn collected(catalog: Seq<Entry>, tables: Seq<Seq<Seq<Datum>>>) -> ReadStage {
    if tables.len() < table_names(catalog).len() {
        ReadStage::Reading { catalog, tables }
    } else {
        ReadStage::Closing(Ok(dump_text(catalog, tables)))
    }
}

/// The stage that follows `stage` when the caller reports `signal` on the
/// read of the file at `source`.
///
/// A failure before the file is open ends the read at once; a failure
/// after that ends it once the database is released, whatever the release
/// reports. An event out of turn is a failure.
pub open spec fn proceed(source: Seq<char>, stage: ReadStage, signal: ReadSignal) -> ReadStage {
    match (stage, signal) {
        (ReadStage::Finished(_), _) => stage,
        (ReadStage::Closing(outcome), _) => ReadStage::Finished(outcome),
        (ReadStage::Opening, ReadSignal::Opened) => ReadStage::Listing,
        (ReadStage::Opening, ReadSignal::Missing) => ReadStage::Finished(
            Err(ReadFailure::NotFound(not_found_message(source))),
        ),
        (ReadStage::Opening, _) => ReadStage::Finished(Err(failure_of(signal))),
        (ReadStage::Listing, ReadSignal::Catalog(catalog)) => collected(catalog, Seq::empty()),
        (ReadStage::Reading { catalog, tables }, ReadSignal::Rows(rows)) => collected(
            catalog,
            tables.push(rows),
        ),
        (_, _) => ReadStage::Closing(Err(failure_of(signal))),
    }
}

/// The action that is due in `job`.
pub open spec fn read_task_of(job: ReadModel) -> ReadTask {
    match job.stage {
        ReadStage::Opening => ReadTask::OpenDatabase(job.source),
        ReadStage::Listing => ReadTask::ReadCatalog(catalog_query()),
        ReadStage::Reading { catalog, tables } => ReadTask::ReadRows(
            select_statement(table_names(catalog)[tables.len() as int]),
        ),
        ReadStage::Closing(_) => ReadTask::CloseDatabase,
        ReadStage::Finished(_) => ReadTask::Finish,
    }
}

enum ReadPhase {
    Opening,
    Listing,
    Reading { catalog: Vec<SchemaEntry>, names: Vec<String>, tables: Vec<Vec<Vec<SqlValue>>> },
    Closing(Result<String, ReadError>),
    Finished(Result<String, ReadError>),
}

spec fn outcome_view(outcome: Result<String, ReadError>) -> Result<Seq<char>, ReadFailure> {
    match outcome {
        Ok(dump) => Ok(dump@),
        Err(error) => Err(error@),
    }
}

impl View for ReadPhase {
    type V = ReadStage;

    closed spec fn view(&self) -> ReadStage {
        match self {
            ReadPhase::Opening => ReadStage::Opening,
            ReadPhase::Listing => ReadStage::Listing,
            ReadPhase::Reading { catalog, names, tables } => ReadStage::Reading {
                catalog: catalog_view(catalog@),
                tables: tables_view(tables@),
            },
            ReadPhase::Closing(outcome) => ReadStage::Closing(outcome_view(*outcome)),
            ReadPhase::Finished(outcome) => ReadStage::Finished(outcome_view(*outcome)),
        }
    }
}

impl ReadPhase {
    spec fn well_formed(self) -> bool {
        match self {
            ReadPhase::Reading { catalog, names, tables } => {
                &&& names@.map_values(|name: String| name@) == table_names(catalog_view(catalog@))
                &&& tables@.len() < names@.len()
            },
            _ => true,
        }
    }
}

/// One read of a database file, from the first action to the outcome.
pub struct ReadJob {
    source: String,
    phase: ReadPhase,
}

impl View for ReadJob {
    type V = ReadModel;

    closed spec fn view(&self) -> ReadModel {
        ReadModel { source: self.source@, stage: self.phase@ }
    }
}

/// Starts the read of the database file at `file_path`. Nothing has been
/// done yet: the first action due is to open the file.
pub fn read_sqlite(file_path: &str) -> (job: ReadJob)
    ensures
        job@ == (ReadModel { source: file_path@, stage: ReadStage::Opening }),
{
    ReadJob { source: String::from_str(file_path), phase: ReadPhase::Opening }
}

fn failure_from(event: ReadEvent) -> (error: ReadError)
    ensures
        error@ == failure_of(event@),
{
    match event {
        ReadEvent::NotADatabase(message) => ReadError::Format(message),
        ReadEvent::Failed(message) => ReadError::Introspection(message),
        _ => ReadError::Introspection(out_of_turn_message()),
    }
}

fn collect(catalog: Vec<SchemaEntry>, names: Vec<String>, tables: Vec<Vec<Vec<SqlValue>>>) -> (next:
    ReadPhase)
    requires
        names@.map_values(|name: String| name@) == table_names(catalog_view(catalog@)),
        tables.len() <= names.len(),
    ensures
        next@ == collected(catalog_view(catalog@), tables_view(tables@)),
        next.well_formed(),
{
    assert(names@.map_values(|name: String| name@).len() == names.len());
    assert(tables_view(tables@).len() == tables.len());
    if tables.len() < names.len() {
        ReadPhase::Reading { catalog, names, tables }
    } else {
        ReadPhase::Closing(Ok(write_dump(&catalog, &names, &tables)))
    }
}

impl ReadJob {
    #[verifier::type_invariant]
    spec fn consistent(self) -> bool {
        self.phase.well_formed()
    }

    /// The action that is due now.
    pub fn action(&self) -> (action: ReadAction<'_>)
        ensures
            action@ == read_task_of(self@),
    {
        proof {
            use_type_invariant(self);
        }
        match &self.phase {
            ReadPhase::Opening => ReadAction::OpenDatabase { path: self.source.as_str() },
            ReadPhase::Listing => ReadAction::ReadCatalog {
                query: "SELECT type, name, sql FROM sqlite_master ORDER BY rowid",
            },
            ReadPhase::Reading { catalog, names, tables } => {
                assert(tables_view(tables@).len() == tables.len());
                assert(names@.map_values(|name: String| name@)[tables.len() as int]
                    == names@[tables.len() as int]@);
                ReadAction::ReadRows { statement: select_rows(names[tables.len()].as_str()) }
            },
            ReadPhase::Closing(_) => ReadAction::CloseDatabase,
            ReadPhase::Finished(_) => ReadAction::Finish,
        }
    }

    /// Takes the caller's report on the pending action and moves on.
    pub fn step(self, event: ReadEvent) -> (next: ReadJob)
        ensures
            next@ == (ReadModel { stage: proceed(self@.source, self@.stage, event@), ..self@ }),
    {
        proof {
            use_type_invariant(&self);
        }
        let source = self.source;
        let phase = match (self.phase, event) {
            (ReadPhase::Finished(outcome), _) => ReadPhase::Finished(outcome),
            (ReadPhase::Closing(outcome), _) => ReadPhase::Finished(outcome),
            (ReadPhase::Opening, ReadEvent::Opened) => ReadPhase::Listing,
            (ReadPhase::Opening, ReadEvent::Missing) => {
                let mut message = String::from_str("file not found: ");
                message.append(source.as_str());
                ReadPhase::Finished(Err(ReadError::NotFound(message)))
            },
            (ReadPhase::Opening, event) => ReadPhase::Finished(Err(failure_from(event))),
            (ReadPhase::Listing, ReadEvent::Catalog(catalog)) => {
                let names = user_tables(&catalog);
                let tables: Vec<Vec<Vec<SqlValue>>> = Vec::new();
                assert(tables_view(tables@) =~= Seq::empty());
                collect(catalog, names, tables)
            },
            (ReadPhase::Reading { catalog, names, tables }, ReadEvent::Rows(rows)) => {
                let mut tables = tables;
                let ghost before = tables@;
                tables.push(rows);
                assert(tables_view(tables@) =~= tables_view(before).push(rows_view(rows@)));
                collect(catalog, names, tables)
            },
            (_, event) => ReadPhase::Closing(Err(failure_from(event))),
        };
        ReadJob { source, phase }
    }

    /// Whether nothing is left to do.
    pub fn is_finished(&self) -> (done: bool)
        ensures
            done == (self@.stage is Finished),
    {
        match &self.phase {
            ReadPhase::Finished(_) => true,
            _ => false,
        }
    }

    /// Ends the job. A finished job gives its outcome: the dump, or the
    /// failure. A job that is not finished gives nothing.
    pub fn outcome(self) -> (outcome: Option<Result<String, ReadError>>)
        ensures
            match self@.stage {
                ReadStage::Finished(Ok(dump)) => outcome matches Some(Ok(text)) && text@ == dump,
                ReadStage::Finished(Err(failure)) => outcome matches Some(Err(e)) && e@ == failure,
                _ => outcome is None,
            },
    {
        match self.phase {
            ReadPhase::Finished(outcome) => Some(outcome),
            _ => None,
        }
    }
}

} // verus!
