//! The dump: the SQL text that rebuilds a database.
//!
//! A dump is one transaction. It defines the tables, in the order of the
//! schema catalog; then fills them, table by table in that order and row by
//! row in the order read; then defines the indexes, views and triggers, so
//! that no trigger fires while the rows are put back. What the database
//! keeps for itself, under names that begin with `sqlite_`, and entries
//! without a definition, are left out.

use vstd::prelude::*;
use vstd::std_specs::iter::IteratorSpec;
use crate::text::{
    blob_literal, integer_literal, lemma_flat_map_empty, lemma_flat_map_push,
    push_blob_literal, push_integer_literal, push_quoted_name, push_text_literal, quoted_name,
    text_literal,
};
use crate::value::{row_view, rows_view, Datum, SqlValue};

verus! {

/// What an entry of the schema catalog defines.
#[derive(Clone, Copy, Debug, PartialEq, Eq, Structural)]
pub enum ObjectKind {
    Table,
    Index,
    View,
    Trigger,
}

/// The kind that the catalog names by `text`, if it names one.
pub open spec fn kind_named(text: Seq<char>) -> Option<ObjectKind> {
    if text == "table"@ {
        Some(ObjectKind::Table)
    } else if text == "index"@ {
        Some(ObjectKind::Index)
    } else if text == "view"@ {
        Some(ObjectKind::View)
    } else if text == "trigger"@ {
        Some(ObjectKind::Trigger)
    } else {
        None
    }
}

impl ObjectKind {
    /// Reads the kind of an entry from the name that the catalog gives it.
    pub fn parse(text: &str) -> (kind: Option<ObjectKind>)
        ensures
            kind == kind_named(text@),
    {
        let text = String::from_str(text);
        if text == String::from_str("table") {
            Some(ObjectKind::Table)
        } else if text == String::from_str("index") {
            Some(ObjectKind::Index)
        } else if text == String::from_str("view") {
            Some(ObjectKind::View)
        } else if text == String::from_str("trigger") {
            Some(ObjectKind::Trigger)
        } else {
            None
        }
    }
}

/// The mathematical value of a [`SchemaEntry`].
pub struct Entry {
    pub kind: ObjectKind,
    pub name: Seq<char>,
    pub sql: Option<Seq<char>>,
}

/// One entry of the schema catalog: what it defines, under which name, and
/// the statement that defined it, where the database kept one.
#[derive(Debug, PartialEq, Eq)]
pub struct SchemaEntry {
    pub kind: ObjectKind,
    pub name: String,
    pub sql: Option<String>,
}

impl View for SchemaEntry {
    type V = Entry;

    open spec fn view(&self) -> Entry {
        Entry {
            kind: self.kind,
            name: self.name@,
            sql: match self.sql {
                Some(sql) => Some(sql@),
                None => None,
            },
        }
    }
}

/// The entries of a catalog.
pub open spec fn catalog_view(catalog: Seq<SchemaEntry>) -> Seq<Entry> {
    catalog.map_values(|entry: SchemaEntry| entry@)
}

/// The rows of the tables of a database, table by table.
pub open spec fn tables_view(tables: Seq<Vec<Vec<SqlValue>>>) -> Seq<Seq<Seq<Datum>>> {
    tables.map_values(|rows: Vec<Vec<SqlValue>>| rows_view(rows@))
}

/// The prefix of the names that the database keeps for itself.
pub open spec fn internal_prefix() -> Seq<char> {
    "sqlite_"@
}

/// Whether `name` is one that the database keeps for itself.
pub open spec fn is_internal_name(name: Seq<char>) -> bool {
    internal_prefix().is_prefix_of(name)
}

/// Whether the dump holds the definition of `entry`.
pub open spec fn is_dumped(entry: Entry) -> bool {
    entry.sql is Some && !is_internal_name(entry.name)
}

/// Whether `entry` is a table whose rows the dump holds.
pub open spec fn is_user_table(entry: Entry) -> bool {
    is_dumped(entry) && entry.kind == ObjectKind::Table
}

/// The names of the tables whose rows the dump holds, in catalog order.
pub open spec fn table_names(catalog: Seq<Entry>) -> Seq<Seq<char>>
    decreases catalog.len(),
{
    if catalog.len() == 0 {
        Seq::empty()
    } else if is_user_table(catalog.last()) {
        table_names(catalog.drop_last()).push(catalog.last().name)
    } else {
        table_names(catalog.drop_last())
    }
}

/// A value as SQL writes it.
pub open spec fn value_literal(value: Datum) -> Seq<char> {
    match value {
        Datum::Null => "NULL"@,
        Datum::Integer(i) => integer_literal(i as int),
        Datum::Real(text) => text,
        Datum::Text(text) => text_literal(text),
        Datum::Blob(bytes) => blob_literal(bytes),
    }
}

/// The values of a row as SQL writes them, with a comma between each two.
pub open spec fn value_list(row: Seq<Datum>) -> Seq<char>
    decreases row.len(),
{
    if row.len() == 0 {
        Seq::empty()
    } else if row.len() == 1 {
        value_literal(row[0])
    } else {
        value_list(row.drop_last()) + ","@ + value_literal(row.last())
    }
}

/// The statement that puts `row` back into `table`, with its line end.
pub open spec fn insert_statement(table: Seq<char>, row: Seq<Datum>) -> Seq<char> {
    "INSERT INTO "@ + quoted_name(table) + " VALUES("@ + value_list(row) + ");\n"@
}

/// The statements that put `rows` back into `table`, in their order.
pub open spec fn inserts(table: Seq<char>, rows: Seq<Seq<Datum>>) -> Seq<char> {
    rows.flat_map(|row: Seq<Datum>| insert_statement(table, row))
}

/// The statements that fill the tables `names`, where `tables[k]` holds the
/// rows of `names[k]`.
pub open spec fn contents(names: Seq<Seq<char>>, tables: Seq<Seq<Seq<Datum>>>) -> Seq<char>
    decreases names.len(),
{
    if names.len() == 0 {
        Seq::empty()
    } else {
        contents(names.drop_last(), tables) + inserts(names.last(), tables[names.len() - 1])
    }
}

/// The definition of `entry` as it stands in the part of the dump for
/// tables (`of_tables`) or in the part for everything else: the statement
/// that the catalog holds, a semicolon and a line end; nothing where the
/// entry belongs to the other part or is left out.
pub open spec fn definition(entry: Entry, of_tables: bool) -> Seq<char> {
    if is_dumped(entry) && (entry.kind == ObjectKind::Table) == of_tables {
        entry.sql->0 + ";\n"@
    } else {
        Seq::empty()
    }
}

/// The definitions of one part of the dump, in catalog order.
pub open spec fn definitions(catalog: Seq<Entry>, of_tables: bool) -> Seq<char> {
    catalog.flat_map(|entry: Entry| definition(entry, of_tables))
}

/// The statement that reads every row of `table`.
pub open spec fn select_statement(table: Seq<char>) -> Seq<char> {
    "SELECT * FROM "@ + quoted_name(table)
}

/// The dump of a database with the schema `catalog`, where `tables[k]` holds
/// the rows of the k-th table of [`table_names`].
pub open spec fn dump_text(catalog: Seq<Entry>, tables: Seq<Seq<Seq<Datum>>>) -> Seq<char> {
    "BEGIN TRANSACTION;\n"@ + definitions(catalog, true) + contents(
        table_names(catalog),
        tables,
    ) + definitions(catalog, false) + "COMMIT;\n"@
}

/// Appends `value` to `out` as SQL writes it.
pub fn push_value(out: &mut String, value: &SqlValue)
    ensures
        final(out)@ == old(out)@ + value_literal(value@),
{
    match value {
        SqlValue::Null => out.append("NULL"),
        SqlValue::Integer(i) => push_integer_literal(out, *i),
        SqlValue::Real(number) => out.append(number.as_str()),
        SqlValue::Text(text) => push_text_literal(out, text.as_str()),
        SqlValue::Blob(bytes) => push_blob_literal(out, bytes),
    }
}

/// Appends to `out` the statement that puts `row` back into `table`.
pub fn push_insert(out: &mut String, table: &str, row: &Vec<SqlValue>)
    ensures
        final(out)@ == old(out)@ + insert_statement(table@, row_view(row@)),
{
    out.append("INSERT INTO ");
    push_quoted_name(out, table);
    out.append(" VALUES(");
    let ghost head = out@;
    let ghost values = row_view(row@);
    let mut i: usize = 0;
    while i < row.len()
        invariant
            i <= row.len(),
            values == row_view(row@),
            out@ == head + value_list(values.take(i as int)),
        decreases row.len() - i,
    {
        let ghost before = out@;
        if i > 0 {
            out.append(",");
        }
        push_value(out, &row[i]);
        proof {
            let upto = values.take(i + 1);
            assert(upto.drop_last() =~= values.take(i as int));
            assert(upto.last() == row@[i as int]@);
            if i == 0 {
                assert(value_list(values.take(0)) =~= Seq::<char>::empty());
            }
            assert(out@ =~= head + value_list(upto));
        }
        i += 1;
    }
    out.append(");\n");
    proof {
        assert(values.take(i as int) =~= values);
        assert(head =~= old(out)@ + "INSERT INTO "@ + quoted_name(table@) + " VALUES("@);
        assert(out@ =~= old(out)@ + insert_statement(table@, values));
    }
}

/// Appends to `out` the statements that put `rows` back into `table`.
pub fn push_inserts(out: &mut String, table: &str, rows: &Vec<Vec<SqlValue>>)
    ensures
        final(out)@ == old(out)@ + inserts(table@, rows_view(rows@)),
{
    let ghost all = rows_view(rows@);
    let ghost statement = |row: Seq<Datum>| insert_statement(table@, row);
    let mut i: usize = 0;
    proof {
        lemma_flat_map_empty::<Seq<Datum>, char>(statement);
        assert(all.take(0) =~= Seq::empty());
    }
    while i < rows.len()
        invariant
            i <= rows.len(),
            all == rows_view(rows@),
            statement == |row: Seq<Datum>| insert_statement(table@, row),
            out@ == old(out)@ + all.take(i as int).flat_map(statement),
        decreases rows.len() - i,
    {
        push_insert(out, table, &rows[i]);
        proof {
            lemma_flat_map_push(all.take(i as int), all[i as int], statement);
            assert(all.take(i as int).push(all[i as int]) =~= all.take(i + 1));
            assert(out@ =~= old(out)@ + all.take(i + 1).flat_map(statement));
        }
        i += 1;
    }
    assert(all.take(i as int) =~= all);
}

/// Whether `name` is one that the database keeps for itself.
pub fn is_internal(name: &str) -> (internal: bool)
    ensures
        internal == is_internal_name(name@),
{
    broadcast use vstd::string::group_string_axioms;

    proof {
        reveal_strlit("sqlite_");
    }
    let prefix = "sqlite_";
    let mut rest = name.chars();
    let mut i: usize = 0;
    while i < 7
        invariant
            i <= 7,
            prefix@ == internal_prefix(),
            prefix@.len() == 7,
            name@.len() >= i,
            rest.remaining() == name@.skip(i as int),
            name@.take(i as int) == prefix@.take(i as int),
            rest.decrease() is Some,
        decreases 7 - i,
    {
        match rest.next() {
            Some(c) => {
                if c != prefix.get_char(i) {
                    proof {
                        if name@.len() >= 7 {
                            assert(name@.subrange(0, 7)[i as int] == name@[i as int]);
                        }
                    }
                    return false;
                }
                proof {
                    assert(name@.skip(i as int).drop_first() =~= name@.skip(i + 1));
                    assert(name@.take(i + 1) =~= name@.take(i as int).push(name@[i as int]));
                    assert(prefix@.take(i + 1) =~= prefix@.take(i as int).push(
                        prefix@[i as int],
                    ));
                }
            },
            None => {
                return false;
            },
        }
        i += 1;
    }
    proof {
        assert(prefix@.take(7) =~= prefix@);
        assert(name@.subrange(0, 7) =~= name@.take(7));
    }
    true
}

/// Whether the dump holds the definition of `entry`.
pub fn is_kept(entry: &SchemaEntry) -> (kept: bool)
    ensures
        kept == is_dumped(entry@),
{
    entry.sql.is_some() && !is_internal(entry.name.as_str())
}

/// The statement that reads every row of `table`.
pub fn select_rows(table: &str) -> (statement: String)
    ensures
        statement@ == select_statement(table@),
{
    let mut statement = String::from_str("SELECT * FROM ");
    push_quoted_name(&mut statement, table);
    statement
}

/// The names of the tables whose rows the dump holds, in catalog order.
pub fn user_tables(catalog: &Vec<SchemaEntry>) -> (names: Vec<String>)
    ensures
        names@.map_values(|name: String| name@) == table_names(catalog_view(catalog@)),
{
    let ghost entries = catalog_view(catalog@);
    let mut names: Vec<String> = Vec::new();
    let mut i: usize = 0;
    assert(names@.map_values(|name: String| name@) =~= table_names(entries.take(0)));
    while i < catalog.len()
        invariant
            i <= catalog.len(),
            entries == catalog_view(catalog@),
            names@.map_values(|name: String| name@) == table_names(entries.take(i as int)),
        decreases catalog.len() - i,
    {
        let entry = &catalog[i];
        let ghost before = names@;
        proof {
            assert(entries.take(i + 1).drop_last() =~= entries.take(i as int));
            assert(entries.take(i + 1).last() == entry@);
        }
        if is_kept(entry) && entry.kind == ObjectKind::Table {
            names.push(entry.name.clone());
            assert(names@.map_values(|name: String| name@) =~= before.map_values(
                |name: String| name@,
            ).push(entry.name@));
        }
        i += 1;
    }
    assert(entries.take(i as int) =~= entries);
    names
}

/// Appends to `out` the definitions of one part of the dump: those of the
/// tables (`of_tables`) or those of everything else.
pub fn push_definitions(out: &mut String, catalog: &Vec<SchemaEntry>, of_tables: bool)
    ensures
        final(out)@ == old(out)@ + definitions(catalog_view(catalog@), of_tables),
{
    let ghost entries = catalog_view(catalog@);
    let ghost piece = |entry: Entry| definition(entry, of_tables);
    let mut i: usize = 0;
    proof {
        lemma_flat_map_empty::<Entry, char>(piece);
        assert(entries.take(0) =~= Seq::empty());
    }
    while i < catalog.len()
        invariant
            i <= catalog.len(),
            entries == catalog_view(catalog@),
            piece == |entry: Entry| definition(entry, of_tables),
            out@ == old(out)@ + entries.take(i as int).flat_map(piece),
        decreases catalog.len() - i,
    {
        let entry = &catalog[i];
        proof {
            lemma_flat_map_push(entries.take(i as int), entry@, piece);
            assert(entries.take(i as int).push(entry@) =~= entries.take(i + 1));
        }
        if is_kept(entry) && (entry.kind == ObjectKind::Table) == of_tables {
            match &entry.sql {
                Some(sql) => {
                    out.append(sql.as_str());
                    out.append(";\n");
                },
                None => {},
            }
        }
        assert(out@ =~= old(out)@ + entries.take(i + 1).flat_map(piece));
        i += 1;
    }
    assert(entries.take(i as int) =~= entries);
}

/// Writes the dump of a database with the schema `catalog`, whose tables
/// `names` hold the rows `tables`, one for one.
pub(crate) fn write_dump(
    catalog: &Vec<SchemaEntry>,
    names: &Vec<String>,
    tables: &Vec<Vec<Vec<SqlValue>>>,
) -> (dump: String)
    requires
        names@.map_values(|name: String| name@) == table_names(catalog_view(catalog@)),
        tables.len() == names.len(),
    ensures
        dump@ == dump_text(catalog_view(catalog@), tables_view(tables@)),
{
    let ghost all = tables_view(tables@);
    let ghost titles = names@.map_values(|name: String| name@);
    let mut out = String::from_str("BEGIN TRANSACTION;\n");
    push_definitions(&mut out, catalog, true);
    let ghost head = out@;
    let mut k: usize = 0;
    while k < names.len()
        invariant
            k <= names.len(),
            names.len() == tables.len(),
            all == tables_view(tables@),
            titles == names@.map_values(|name: String| name@),
            out@ == head + contents(titles.take(k as int), all),
        decreases names.len() - k,
    {
        push_inserts(&mut out, names[k].as_str(), &tables[k]);
        proof {
            assert(titles.take(k + 1).drop_last() =~= titles.take(k as int));
            assert(titles.take(k + 1).last() == names@[k as int]@);
            assert(all[k as int] == rows_view(tables@[k as int]@));
            assert(out@ =~= head + contents(titles.take(k + 1), all));
        }
        k += 1;
    }
    proof {
        assert(titles.take(k as int) =~= titles);
    }
    push_definitions(&mut out, catalog, false);
    out.append("COMMIT;\n");
    out
}

/// Writes the dump of a database with the schema `catalog`, where
/// `tables[k]` holds the rows of the k-th of its [`user_tables`]. There is a
/// dump exactly where every such table has its rows and no rows are left
/// over.
pub fn render_dump(catalog: &Vec<SchemaEntry>, tables: &Vec<Vec<Vec<SqlValue>>>) -> (dump: Option<
    String,
>)
    ensures
        dump is Some <==> tables@.len() == table_names(catalog_view(catalog@)).len(),
        dump matches Some(text) ==> text@ == dump_text(
            catalog_view(catalog@),
            tables_view(tables@),
        ),
{
    let names = user_tables(catalog);
    assert(names@.map_values(|name: String| name@).len() == names.len());
    if names.len() != tables.len() {
        None
    } else {
        Some(write_dump(catalog, &names, tables))
    }
}

} // verus!
