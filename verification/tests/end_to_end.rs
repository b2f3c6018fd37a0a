use keste_persist::dump::{ObjectKind, SchemaEntry};
use keste_persist::error::{ReadError, WriteError};
use keste_persist::sqlite_reader::{read_sqlite, ReadAction, ReadEvent};
use keste_persist::sqlite_writer::{write_sqlite, WriteAction, WriteEvent};
use keste_persist::value::{RealText, SqlValue};
use rusqlite::types::ValueRef;
use rusqlite::{Connection, OpenFlags};
use std::collections::HashMap;

/// The files that the tests write and read: each path holds a closed
/// database, kept in memory.
struct Disk {
    files: HashMap<String, Connection>,
}

fn size_of(database: &Connection) -> Result<usize, rusqlite::Error> {
    let pages: i64 = database.query_row("PRAGMA page_count", [], |row| row.get(0))?;
    let page: i64 = database.query_row("PRAGMA page_size", [], |row| row.get(0))?;
    Ok((pages * page) as usize)
}

fn run_write(disk: &mut Disk, sql_dump: &str, out_path: &str) -> Result<usize, WriteError> {
    let mut job = write_sqlite(sql_dump, out_path);
    let mut database: Option<(String, Connection)> = None;
    loop {
        let event = match job.action() {
            WriteAction::RemoveStale { path } => {
                disk.files.remove(path);
                WriteEvent::Cleaned
            }
            WriteAction::CreateDatabase { path } => match Connection::open_in_memory() {
                Ok(opened) => {
                    database = Some((path.to_string(), opened));
                    WriteEvent::Created
                }
                Err(e) => WriteEvent::Failed(e.to_string()),
            },
            WriteAction::ExecuteBatch { sql } => match &database {
                Some((_, open)) => match open.execute_batch(sql) {
                    Ok(()) => WriteEvent::Executed,
                    Err(e) => WriteEvent::Failed(e.to_string()),
                },
                None => WriteEvent::Failed("no open database".to_string()),
            },
            WriteAction::Measure { path } => match &database {
                Some((staged, open)) if staged == path => match size_of(open) {
                    Ok(bytes) => WriteEvent::Measured(bytes),
                    Err(e) => WriteEvent::Failed(e.to_string()),
                },
                _ => WriteEvent::Failed("no such file".to_string()),
            },
            WriteAction::CloseDatabase => {
                if let Some((path, closed)) = database.take() {
                    disk.files.insert(path, closed);
                }
                WriteEvent::Closed
            }
            WriteAction::Rename { from, to } => match disk.files.remove(from) {
                Some(file) => {
                    disk.files.insert(to.to_string(), file);
                    WriteEvent::Renamed
                }
                None => WriteEvent::Failed("no such file".to_string()),
            },
            WriteAction::Finish => break,
        };
        job = job.step(event);
    }
    job.outcome().expect("the job is finished")
}

fn value_of(value: ValueRef<'_>) -> Result<SqlValue, String> {
    match value {
        ValueRef::Null => Ok(SqlValue::Null),
        ValueRef::Integer(i) => Ok(SqlValue::Integer(i)),
        ValueRef::Real(r) => {
            let text = format!("{:?}", r);
            RealText::parse(&text)
                .map(SqlValue::Real)
                .ok_or_else(|| format!("not a finite number: {}", text))
        }
        ValueRef::Text(bytes) => match std::str::from_utf8(bytes) {
            Ok(text) => Ok(SqlValue::Text(text.to_string())),
            Err(e) => Err(e.to_string()),
        },
        ValueRef::Blob(bytes) => Ok(SqlValue::Blob(bytes.to_vec())),
    }
}

fn read_catalog(database: &Connection, query: &str) -> Result<Vec<SchemaEntry>, rusqlite::Error> {
    let mut statement = database.prepare(query)?;
    let mut rows = statement.query([])?;
    let mut entries = Vec::new();
    while let Some(row) = rows.next()? {
        let kind: String = row.get(0)?;
        let kind = ObjectKind::parse(&kind).ok_or(rusqlite::Error::InvalidQuery)?;
        entries.push(SchemaEntry { kind, name: row.get(1)?, sql: row.get(2)? });
    }
    Ok(entries)
}

fn read_rows(database: &Connection, query: &str) -> Result<Vec<Vec<SqlValue>>, String> {
    let mut statement = database.prepare(query).map_err(|e| e.to_string())?;
    let columns = statement.column_count();
    let mut rows = statement.query([]).map_err(|e| e.to_string())?;
    let mut table = Vec::new();
    while let Some(row) = rows.next().map_err(|e| e.to_string())? {
        let mut values = Vec::new();
        for column in 0..columns {
            values.push(value_of(row.get_ref(column).map_err(|e| e.to_string())?)?);
        }
        table.push(values);
    }
    Ok(table)
}

fn failure(error: rusqlite::Error) -> ReadEvent {
    match error.sqlite_error_code() {
        Some(rusqlite::ErrorCode::NotADatabase) => ReadEvent::NotADatabase(error.to_string()),
        _ => ReadEvent::Failed(error.to_string()),
    }
}

fn run_read(disk: &Disk, file_path: &str) -> Result<String, ReadError> {
    let mut job = read_sqlite(file_path);
    let mut opened: Option<Connection> = None;
    let mut stored: Option<&Connection> = None;
    loop {
        let database = opened.as_ref().or(stored);
        let event = match job.action() {
            ReadAction::OpenDatabase { path } => match disk.files.get(path) {
                Some(file) => {
                    stored = Some(file);
                    ReadEvent::Opened
                }
                None if !std::path::Path::new(path).exists() => ReadEvent::Missing,
                None => match Connection::open_with_flags(path, OpenFlags::SQLITE_OPEN_READ_ONLY)
                {
                    Ok(file) => {
                        opened = Some(file);
                        ReadEvent::Opened
                    }
                    Err(e) => failure(e),
                },
            },
            ReadAction::ReadCatalog { query } => match database {
                Some(open) => match read_catalog(open, query) {
                    Ok(entries) => ReadEvent::Catalog(entries),
                    Err(e) => failure(e),
                },
                None => ReadEvent::Failed("no open database".to_string()),
            },
            ReadAction::ReadRows { statement } => match database {
                Some(open) => match read_rows(open, &statement) {
                    Ok(rows) => ReadEvent::Rows(rows),
                    Err(message) => ReadEvent::Failed(message),
                },
                None => ReadEvent::Failed("no open database".to_string()),
            },
            ReadAction::CloseDatabase => {
                drop(opened.take());
                stored = None;
                ReadEvent::Closed
            }
            ReadAction::Finish => break,
        };
        job = job.step(event);
    }
    job.outcome().expect("the job is finished")
}

fn count_rows(disk: &Disk, path: &str, table: &str) -> i64 {
    disk.files[path]
        .query_row(&format!("SELECT count(*) FROM {}", table), [], |row| row.get(0))
        .unwrap()
}

fn message_of(error: &WriteError) -> String {
    error.detail().to_string()
}

#[test]
fn write_creates_a_database_with_one_row() {
    let mut disk = Disk { files: HashMap::new() };
    let path = "/tmp/out.db";
    let written =
        run_write(&mut disk, "CREATE TABLE t(x INTEGER); INSERT INTO t VALUES (1);", path);
    let bytes = written.expect("the write succeeds");
    assert!(bytes > 0);
    assert_eq!(bytes, size_of(&disk.files[path]).unwrap());
    assert_eq!(count_rows(&disk, path, "t"), 1);
    assert!(!disk.files.contains_key("/tmp/out.db.tmp"));

    let dump = run_read(&disk, path).expect("the read succeeds");
    assert_eq!(
        dump,
        "BEGIN TRANSACTION;\nCREATE TABLE t(x INTEGER);\nINSERT INTO \"t\" VALUES(1);\nCOMMIT;\n"
    );
    let copy = "/tmp/copy.db";
    run_write(&mut disk, &dump, copy).expect("the replay succeeds");
    assert_eq!(count_rows(&disk, copy, "t"), 1);
    let value: i64 = disk.files[copy].query_row("SELECT x FROM t", [], |row| row.get(0)).unwrap();
    assert_eq!(value, 1);
    assert_eq!(run_read(&disk, copy).expect("the copy is read"), dump);
}

#[test]
fn malformed_dump_fails_and_leaves_the_destination_absent() {
    let mut disk = Disk { files: HashMap::new() };
    let path = "/tmp/out.db";
    let written =
        run_write(&mut disk, "CREATE TABLE t(x INTEGER; INSERT INTO t VALUES (1);", path);
    match written {
        Err(WriteError::Execution(message)) => assert!(!message.is_empty()),
        other => panic!("expected an execution failure, got {:?}", other),
    }
    assert!(!disk.files.contains_key(path));
}

#[test]
fn malformed_dump_fails_and_leaves_the_destination_unchanged() {
    let mut disk = Disk { files: HashMap::new() };
    let path = "/tmp/out.db";
    run_write(&mut disk, "CREATE TABLE t(x INTEGER); INSERT INTO t VALUES (1);", path).unwrap();
    let before = run_read(&disk, path).unwrap();
    let written = run_write(
        &mut disk,
        "CREATE TABLE u(y TEXT); INSERT INTO u VALUES ('a'); INSERT INTO missing VALUES (2);",
        path,
    );
    let error = written.expect_err("the write fails");
    assert!(matches!(error, WriteError::Execution(_)));
    assert!(message_of(&error).contains("missing"));
    assert_eq!(run_read(&disk, path).unwrap(), before);
    assert_eq!(count_rows(&disk, path, "t"), 1);
}

#[test]
fn stale_staging_file_is_replaced() {
    let mut disk = Disk { files: HashMap::new() };
    let path = "/tmp/out.db";
    let _ = run_write(&mut disk, "CREATE TABLE broken(", path);
    assert!(disk.files.contains_key("/tmp/out.db.tmp"));
    run_write(&mut disk, "CREATE TABLE t(x INTEGER);", path).expect("the write succeeds");
    assert!(!disk.files.contains_key("/tmp/out.db.tmp"));
    assert_eq!(count_rows(&disk, path, "t"), 0);
}

#[test]
fn reading_a_missing_file_is_not_found() {
    let disk = Disk { files: HashMap::new() };
    match run_read(&disk, "/tmp/keste_persist/no/such/file.kst") {
        Err(ReadError::NotFound(message)) => {
            assert_eq!(message, "file not found: /tmp/keste_persist/no/such/file.kst")
        }
        other => panic!("expected a missing file, got {:?}", other),
    }
}

#[test]
fn reading_a_file_that_is_no_database_is_a_format_failure() {
    let disk = Disk { files: HashMap::new() };
    let path = "/etc/passwd";
    assert!(std::path::Path::new(path).exists());
    match run_read(&disk, path) {
        Err(ReadError::Format(message)) => assert!(message.contains("not a database")),
        other => panic!("expected a format failure, got {:?}", other),
    }
}

#[test]
fn round_trip_keeps_schema_and_rows() {
    let mut disk = Disk { files: HashMap::new() };
    let first = "/tmp/first.kst";
    let source = "CREATE TABLE \"sheet 1\"(id INTEGER PRIMARY KEY, label TEXT, amount REAL, raw BLOB);\n\
        CREATE TABLE empty(a);\n\
        CREATE INDEX by_label ON \"sheet 1\"(label);\n\
        CREATE VIEW labels AS SELECT label FROM \"sheet 1\";\n\
        CREATE TABLE log(entry TEXT);\n\
        CREATE TRIGGER note AFTER INSERT ON \"sheet 1\" BEGIN INSERT INTO log VALUES ('fired'); END;\n\
        INSERT INTO \"sheet 1\" VALUES (1, 'it''s', 1.5, X'00ff10');\n\
        INSERT INTO \"sheet 1\" VALUES (2, NULL, -2.5e-7, X'');\n\
        INSERT INTO \"sheet 1\" VALUES (-9223372036854775808, 'a' || char(0) || 'b', 1e300, NULL);\n\
        INSERT INTO \"sheet 1\" VALUES (9223372036854775807, '', 3.0, 'text in a blob column');\n";
    run_write(&mut disk, source, first).expect("the first file is written");
    assert_eq!(count_rows(&disk, first, "log"), 4);

    let dump = run_read(&disk, first).expect("the first file is read");
    let copy = "/tmp/copy.kst";
    run_write(&mut disk, &dump, copy).expect("the dump is replayed");
    assert_eq!(run_read(&disk, copy).expect("the copy is read"), dump);
    assert_eq!(count_rows(&disk, copy, "log"), 4);
    assert_eq!(count_rows(&disk, copy, "\"sheet 1\""), 4);
    assert_eq!(count_rows(&disk, copy, "empty"), 0);
    assert_eq!(count_rows(&disk, copy, "labels"), 4);

    let same: i64 = disk.files[copy]
        .query_row(
            "SELECT count(*) FROM \"sheet 1\" WHERE \
             (id = 1 AND label = 'it''s' AND amount = 1.5 AND raw = X'00ff10') OR \
             (id = 2 AND label IS NULL AND amount = -2.5e-7 AND raw = X'') OR \
             (id = -9223372036854775808 AND label = 'a' || char(0) || 'b' \
                AND length(CAST(label AS BLOB)) = 3 AND amount = 1e300 AND raw IS NULL) OR \
             (id = 9223372036854775807 AND label = '' AND typeof(amount) = 'real' \
                AND amount = 3.0 AND typeof(raw) = 'text')",
            [],
            |row| row.get(0),
        )
        .unwrap();
    assert_eq!(same, 4);
}

#[test]
fn reading_twice_gives_the_same_dump() {
    let mut disk = Disk { files: HashMap::new() };
    let path = "/tmp/twice.kst";
    run_write(
        &mut disk,
        "CREATE TABLE b(x); CREATE TABLE a(y); INSERT INTO a VALUES ('z'); INSERT INTO b VALUES (2), (1);",
        path,
    )
    .unwrap();
    let first = run_read(&disk, path).unwrap();
    let second = run_read(&disk, path).unwrap();
    assert_eq!(first, second);
    assert_eq!(
        first,
        "BEGIN TRANSACTION;\nCREATE TABLE b(x);\nCREATE TABLE a(y);\n\
         INSERT INTO \"b\" VALUES(2);\nINSERT INTO \"b\" VALUES(1);\n\
         INSERT INTO \"a\" VALUES('z');\nCOMMIT;\n"
    );
}
