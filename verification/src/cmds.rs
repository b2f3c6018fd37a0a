//! The commands that the user interface calls: what it sends, and what it
//! gets back. A failure reaches it as one line of text.
//!
//! A command plans what is to be done, a dialog to show or a job to run;
//! the program shows or runs it, and a reply function turns what came of it
//! into the answer.

use vstd::prelude::*;
use crate::error::{ReadError, WriteError};
use crate::sqlite_reader::{ReadJob, ReadModel, ReadStage};
use crate::sqlite_writer::{JobModel, Stage, WriteJob};

verus! {

/// What a successful save reports.
#[derive(Debug, PartialEq, Eq)]
pub struct SaveResult {
    /// The size in bytes of the file that was written.
    pub bytes_written: usize,
}

/// The request to load a database file.
#[derive(Debug, PartialEq, Eq)]
pub struct ReadSqliteRequest {
    pub file_path: String,
}

/// The request to save a dump as a database file.
#[derive(Debug, PartialEq, Eq)]
pub struct SaveSqliteRequest {
    pub sql_dump: String,
    pub out_path: String,
}

/// What a failed save reports: a fixed prefix and the failure's message.
pub open spec fn write_error_text(detail: Seq<char>) -> Seq<char> {
    "SQLite write error: "@ + detail
}

/// What a failed load reports: a fixed prefix and the failure's message.
pub open spec fn read_error_text(detail: Seq<char>) -> Seq<char> {
    "SQLite read error: "@ + detail
}

/// The mathematical value of a [`FileFilter`].
pub struct Filter {
    pub name: Seq<char>,
    pub extensions: Seq<Seq<char>>,
}

/// A kind of file that a dialog offers: its name, and the extensions of the
/// files that belong to it.
#[derive(Debug, PartialEq, Eq)]
pub struct FileFilter {
    pub name: String,
    pub extensions: Vec<String>,
}

impl View for FileFilter {
    type V = Filter;

    open spec fn view(&self) -> Filter {
        Filter {
            name: self.name@,
            extensions: self.extensions@.map_values(|extension: String| extension@),
        }
    }
}

/// The mathematical value of a [`FileDialog`].
pub struct Dialog {
    pub save: bool,
    pub file_name: Option<Seq<char>>,
    pub filters: Seq<Filter>,
}

/// A file dialog that is to be shown: one that asks where to save, or one
/// that asks what to open; the file name that it proposes, if any; and the
/// kinds of file that it offers, in their order.
#[derive(Debug, PartialEq, Eq)]
pub struct FileDialog {
    pub save: bool,
    pub file_name: Option<String>,
    pub filters: Vec<FileFilter>,
}

impl View for FileDialog {
    type V = Dialog;

    open spec fn view(&self) -> Dialog {
        Dialog {
            save: self.save,
            file_name: match self.file_name {
                Some(name) => Some(name@),
                None => None,
            },
            filters: self.filters@.map_values(|filter: FileFilter| filter@),
        }
    }
}

/// The dialog that asks which document to open: spreadsheets of either
/// kind, then each kind by itself.
pub open spec fn open_dialog() -> Dialog {
    Dialog {
        save: false,
        file_name: None,
        filters: seq![
            Filter { name: "Spreadsheet Files"@, extensions: seq!["xlsx"@, "kst"@] },
            Filter { name: "Excel Files"@, extensions: seq!["xlsx"@] },
            Filter { name: "Keste Files"@, extensions: seq!["kst"@] },
        ],
    }
}

/// The dialog that asks where to save a document, proposing `default_name`.
pub open spec fn save_dialog(default_name: Seq<char>) -> Dialog {
    Dialog {
        save: true,
        file_name: Some(default_name),
        filters: seq![Filter { name: "Keste Spreadsheet"@, extensions: seq!["kst"@] }],
    }
}

fn filter_of_one(name: &str, extension: &str) -> (filter: FileFilter)
    ensures
        filter@ == (Filter { name: name@, extensions: seq![extension@] }),
{
    let mut extensions: Vec<String> = Vec::new();
    extensions.push(String::from_str(extension));
    let filter = FileFilter { name: String::from_str(name), extensions };
    assert(filter@.extensions =~= seq![extension@]);
    filter
}

fn filter_of_two(name: &str, first: &str, second: &str) -> (filter: FileFilter)
    ensures
        filter@ == (Filter { name: name@, extensions: seq![first@, second@] }),
{
    let mut extensions: Vec<String> = Vec::new();
    extensions.push(String::from_str(first));
    extensions.push(String::from_str(second));
    let filter = FileFilter { name: String::from_str(name), extensions };
    assert(filter@.extensions =~= seq![first@, second@]);
    filter
}

/// Plans the dialog that asks which document to open.
pub fn choose_open_file() -> (dialog: FileDialog)
    ensures
        dialog@ == open_dialog(),
{
    let mut filters: Vec<FileFilter> = Vec::new();
    filters.push(filter_of_two("Spreadsheet Files", "xlsx", "kst"));
    filters.push(filter_of_one("Excel Files", "xlsx"));
    filters.push(filter_of_one("Keste Files", "kst"));
    let dialog = FileDialog { save: false, file_name: None, filters };
    assert(dialog@.filters =~= open_dialog().filters);
    dialog
}

/// Plans the dialog that asks where to save a document, proposing
/// `default_name`.
pub fn choose_save_file(default_name: String) -> (dialog: FileDialog)
    ensures
        dialog@ == save_dialog(default_name@),
{
    let mut filters: Vec<FileFilter> = Vec::new();
    filters.push(filter_of_one("Keste Spreadsheet", "kst"));
    let dialog = FileDialog { save: true, file_name: Some(default_name), filters };
    assert(dialog@.filters =~= save_dialog(default_name@).filters);
    dialog
}

/// What a dismissed file dialog reports.
pub open spec fn no_file_selected() -> Seq<char> {
    "No file selected"@
}

/// Turns what a file dialog gave into what the user interface gets: the path
/// that was chosen, or, where the dialog was dismissed, the failure as text.
pub fn choice_reply(chosen: Option<String>) -> (reply: Result<String, String>)
    ensures
        match chosen {
            Some(path) => reply == Ok::<String, String>(path),
            None => reply matches Err(text) && text@ == no_file_selected(),
        },
{
    match chosen {
        Some(path) => Ok(path),
        None => Err(String::from_str("No file selected")),
    }
}

/// Starts the save that `request` asks for.
pub fn save_sqlite(request: &SaveSqliteRequest) -> (job: WriteJob)
    ensures
        job@ == (JobModel {
            destination: request.out_path@,
            dump: request.sql_dump@,
            stage: Stage::Cleaning,
        }),
{
    crate::sqlite_writer::write_sqlite(request.sql_dump.as_str(), request.out_path.as_str())
}

/// Turns the outcome of a save into what the user interface gets: the byte
/// count on success, the failure as text otherwise.
pub fn save_reply(outcome: Result<usize, WriteError>) -> (reply: Result<SaveResult, String>)
    ensures
        match outcome {
            Ok(bytes) => reply matches Ok(result) && result.bytes_written == bytes,
            Err(error) => reply matches Err(text) && text@ == write_error_text(error@.detail()),
        },
{
    match outcome {
        Ok(bytes) => Ok(SaveResult { bytes_written: bytes }),
        Err(error) => {
            let mut text = String::from_str("SQLite write error: ");
            text.append(error.detail());
            Err(text)
        },
    }
}

/// Starts the load that `request` asks for.
pub fn read_sqlite(request: &ReadSqliteRequest) -> (job: ReadJob)
    ensures
        job@ == (ReadModel { source: request.file_path@, stage: ReadStage::Opening }),
{
    crate::sqlite_reader::read_sqlite(request.file_path.as_str())
}

/// Turns the outcome of a load into what the user interface gets: the dump
/// on success, the failure as text otherwise.
pub fn read_reply(outcome: Result<String, ReadError>) -> (reply: Result<String, String>)
    ensures
        match outcome {
            Ok(dump) => reply == Ok::<String, String>(dump),
            Err(error) => reply matches Err(text) && text@ == read_error_text(error@.detail()),
        },
{
    match outcome {
        Ok(dump) => Ok(dump),
        Err(error) => {
            let mut text = String::from_str("SQLite read error: ");
            text.append(error.detail());
            Err(text)
        },
    }
}

} // verus!
