use keste_persist::dump::{
    is_internal, is_kept, push_definitions, push_insert, push_inserts, push_value, render_dump,
    select_rows, user_tables, ObjectKind, SchemaEntry,
};
use keste_persist::value::{RealText, SqlValue};

fn entry(kind: ObjectKind, name: &str, sql: Option<&str>) -> SchemaEntry {
    SchemaEntry { kind, name: name.to_string(), sql: sql.map(|s| s.to_string()) }
}

fn number(text: &str) -> SqlValue {
    SqlValue::Real(RealText::parse(text).unwrap())
}

fn catalog() -> Vec<SchemaEntry> {
    vec![
        entry(ObjectKind::Table, "cells", Some("CREATE TABLE cells(r INTEGER, c INTEGER, v)")),
        entry(ObjectKind::Index, "sqlite_autoindex_cells_1", None),
        entry(ObjectKind::Index, "by_row", Some("CREATE INDEX by_row ON cells(r)")),
        entry(ObjectKind::Table, "sqlite_sequence", Some("CREATE TABLE sqlite_sequence(name,seq)")),
        entry(ObjectKind::Table, "my \"names\"", Some("CREATE TABLE \"my \"\"names\"\"\"(n TEXT)")),
        entry(ObjectKind::View, "filled", Some("CREATE VIEW filled AS SELECT * FROM cells")),
        entry(
            ObjectKind::Trigger,
            "touch",
            Some("CREATE TRIGGER touch AFTER INSERT ON cells BEGIN SELECT 1; END"),
        ),
    ]
}

#[test]
fn kinds_are_read_from_their_catalog_names() {
    assert_eq!(ObjectKind::parse("table"), Some(ObjectKind::Table));
    assert_eq!(ObjectKind::parse("index"), Some(ObjectKind::Index));
    assert_eq!(ObjectKind::parse("view"), Some(ObjectKind::View));
    assert_eq!(ObjectKind::parse("trigger"), Some(ObjectKind::Trigger));
    assert_eq!(ObjectKind::parse("Table"), None);
    assert_eq!(ObjectKind::parse(""), None);
    assert_eq!(ObjectKind::parse("tables"), None);
}

#[test]
fn internal_names_begin_with_the_reserved_prefix() {
    assert!(is_internal("sqlite_sequence"));
    assert!(is_internal("sqlite_"));
    assert!(is_internal("sqlite_autoindex_t_1"));
    assert!(!is_internal("sqlite"));
    assert!(!is_internal("sqlit"));
    assert!(!is_internal(""));
    assert!(!is_internal("SQLITE_x"));
    assert!(!is_internal("my_sqlite_table"));
    assert!(!is_internal("sqlitE_x"));
    assert!(!is_internal("sqlité_"));
}

#[test]
fn entries_without_definition_or_with_internal_names_are_left_out() {
    assert!(is_kept(&entry(ObjectKind::Table, "t", Some("CREATE TABLE t(x)"))));
    assert!(!is_kept(&entry(ObjectKind::Index, "auto", None)));
    assert!(!is_kept(&entry(ObjectKind::Table, "sqlite_stat1", Some("CREATE TABLE sqlite_stat1(a)"))));
    assert!(is_kept(&entry(ObjectKind::View, "v", Some("CREATE VIEW v AS SELECT 1"))));
}

#[test]
fn user_tables_are_the_kept_tables_in_catalog_order() {
    assert_eq!(user_tables(&catalog()), vec!["cells".to_string(), "my \"names\"".to_string()]);
    assert!(user_tables(&Vec::new()).is_empty());
}

#[test]
fn select_statement_quotes_the_table() {
    assert_eq!(select_rows("cells"), "SELECT * FROM \"cells\"");
    assert_eq!(select_rows("my \"names\""), "SELECT * FROM \"my \"\"names\"\"\"");
}

#[test]
fn values_are_written_by_storage_class() {
    let mut out = String::new();
    for value in [
        SqlValue::Null,
        SqlValue::Integer(-42),
        number("2.5e-7"),
        SqlValue::Text("o'clock".to_string()),
        SqlValue::Blob(vec![0xab, 0x01]),
    ] {
        push_value(&mut out, &value);
        out.push(' ');
    }
    assert_eq!(out, "NULL -42 2.5e-7 'o''clock' X'AB01' ");
}

#[test]
fn insert_statement_lists_the_values() {
    let mut out = String::new();
    push_insert(&mut out, "t", &vec![SqlValue::Integer(1)]);
    assert_eq!(out, "INSERT INTO \"t\" VALUES(1);\n");
    let mut out = String::new();
    push_insert(
        &mut out,
        "my t",
        &vec![SqlValue::Integer(1), SqlValue::Null, SqlValue::Text("a,b".to_string()), number("1.0")],
    );
    assert_eq!(out, "INSERT INTO \"my t\" VALUES(1,NULL,'a,b',1.0);\n");
    let mut out = String::from("-- ");
    push_insert(&mut out, "t", &Vec::new());
    assert_eq!(out, "-- INSERT INTO \"t\" VALUES();\n");
}

#[test]
fn inserts_follow_the_order_of_the_rows() {
    let mut out = String::new();
    push_inserts(
        &mut out,
        "t",
        &vec![vec![SqlValue::Integer(2)], vec![SqlValue::Integer(1)], vec![SqlValue::Null]],
    );
    assert_eq!(
        out,
        "INSERT INTO \"t\" VALUES(2);\nINSERT INTO \"t\" VALUES(1);\nINSERT INTO \"t\" VALUES(NULL);\n"
    );
    let mut out = String::from("x");
    push_inserts(&mut out, "t", &Vec::new());
    assert_eq!(out, "x");
}

#[test]
fn definitions_come_in_two_parts() {
    let mut tables = String::new();
    push_definitions(&mut tables, &catalog(), true);
    assert_eq!(
        tables,
        "CREATE TABLE cells(r INTEGER, c INTEGER, v);\nCREATE TABLE \"my \"\"names\"\"\"(n TEXT);\n"
    );
    let mut others = String::new();
    push_definitions(&mut others, &catalog(), false);
    assert_eq!(
        others,
        "CREATE INDEX by_row ON cells(r);\nCREATE VIEW filled AS SELECT * FROM cells;\n\
         CREATE TRIGGER touch AFTER INSERT ON cells BEGIN SELECT 1; END;\n"
    );
}

#[test]
fn dump_of_an_empty_database() {
    assert_eq!(
        render_dump(&Vec::new(), &Vec::new()),
        Some("BEGIN TRANSACTION;\nCOMMIT;\n".to_string())
    );
}

#[test]
fn dump_defines_tables_then_fills_them_then_defines_the_rest() {
    let tables = vec![
        vec![
            vec![SqlValue::Integer(1), SqlValue::Integer(1), SqlValue::Text("total".to_string())],
            vec![SqlValue::Integer(1), SqlValue::Integer(2), number("12.5")],
        ],
        vec![vec![SqlValue::Text("budget".to_string())]],
    ];
    assert_eq!(
        render_dump(&catalog(), &tables),
        Some(
            "BEGIN TRANSACTION;\n\
             CREATE TABLE cells(r INTEGER, c INTEGER, v);\n\
             CREATE TABLE \"my \"\"names\"\"\"(n TEXT);\n\
             INSERT INTO \"cells\" VALUES(1,1,'total');\n\
             INSERT INTO \"cells\" VALUES(1,2,12.5);\n\
             INSERT INTO \"my \"\"names\"\"\" VALUES('budget');\n\
             CREATE INDEX by_row ON cells(r);\n\
             CREATE VIEW filled AS SELECT * FROM cells;\n\
             CREATE TRIGGER touch AFTER INSERT ON cells BEGIN SELECT 1; END;\n\
             COMMIT;\n"
                .to_string()
        )
    );
}

#[test]
fn dump_needs_the_rows_of_every_table_and_no_more() {
    assert_eq!(render_dump(&catalog(), &Vec::new()), None);
    assert_eq!(render_dump(&catalog(), &vec![Vec::new()]), None);
    assert!(render_dump(&catalog(), &vec![Vec::new(), Vec::new()]).is_some());
    assert_eq!(render_dump(&catalog(), &vec![Vec::new(), Vec::new(), Vec::new()]), None);
    assert_eq!(render_dump(&Vec::new(), &vec![Vec::new()]), None);
}

#[test]
fn values_of_different_classes_are_written_differently() {
    let values = [
        SqlValue::Null,
        SqlValue::Integer(1),
        number("1.0"),
        number("1e0"),
        SqlValue::Text("1".to_string()),
        SqlValue::Text("NULL".to_string()),
        SqlValue::Text("".to_string()),
        SqlValue::Text("\0".to_string()),
        SqlValue::Text("'||char(0)||'".to_string()),
        SqlValue::Blob(vec![b'1']),
        SqlValue::Blob(Vec::new()),
        SqlValue::Integer(-1),
        SqlValue::Integer(10),
    ];
    let written: Vec<String> = values
        .iter()
        .map(|value| {
            let mut out = String::new();
            push_value(&mut out, value);
            out
        })
        .collect();
    for i in 0..written.len() {
        for j in 0..written.len() {
            assert_eq!(written[i] == written[j], i == j, "{:?} and {:?}", values[i], values[j]);
        }
    }
}
