//! The user's study data, kept in an SQLite database through `rusqlite`:
//! highlights, bookmarks, notes, settings, reading history and sessions,
//! journal entries and prayer requests.
//!
//! SQLite itself is reached through small trusted wrappers, one `rusqlite`
//! call each (open, run a batch, execute, prepare, start a query, step to
//! the next row, read a column, build a parameter value). What the database
//! holds lies outside what can be proved here, so the functions of this
//! module are verified for whatever rows come back; the row decoders, which
//! carry the conversion rules of `rusqlite`'s `FromSql`, are stated exactly,
//! and so is the statement (SQL and bound values) of each operation, built
//! by its `*_statement_chirho` function.

use vstd::prelude::*;
use vstd::string::StringExecFns;
use vstd::string::StrSliceExecFns;
use rusqlite::types::Value;
use std::collections::HashSet;
use crate::streaks_chirho::{
    day_and_day_before_chirho, local_today_chirho, local_today_days_chirho, reading_streaks_chirho,
    spec_current_streak_chirho, spec_current_value_chirho, spec_day_before_text_chirho, spec_day_text_chirho,
    spec_longest_run_chirho, spec_parsed_days_chirho, law_current_streak_within_longest_chirho,
};
use crate::text_chirho::{
    int_to_string_chirho, spec_int_decimal_chirho,
};

verus! {

// ---------------------------------------------------------------------------
// Outside types and values
// ---------------------------------------------------------------------------

/// An open SQLite connection of `rusqlite`.
#[verifier::external_type_specification]
#[verifier::external_body]
pub struct ExConnectionChirho(rusqlite::Connection);

/// An error of `rusqlite`.
#[verifier::external_type_specification]
#[verifier::external_body]
pub struct ExSqlErrorChirho(rusqlite::Error);

/// An owned SQLite value of `rusqlite`.
#[verifier::external_type_specification]
#[verifier::external_body]
pub struct ExSqliteValueChirho(rusqlite::types::Value);

/// A compiled SQL statement of `rusqlite`.
#[verifier::external_type_specification]
#[verifier::external_body]
pub struct ExStatementChirho<'conn>(rusqlite::Statement<'conn>);

/// The result rows of a running query of `rusqlite`.
#[verifier::external_type_specification]
#[verifier::external_body]
pub struct ExRowsChirho<'stmt>(rusqlite::Rows<'stmt>);

/// One result row of `rusqlite`.
#[verifier::external_type_specification]
#[verifier::external_body]
pub struct ExRowChirho<'stmt>(rusqlite::Row<'stmt>);

/// A value bound to a `?N` parameter of an SQL statement.
pub enum SqlParamChirho {
    NullChirho,
    IntegerChirho(i64),
    TextChirho(String),
}

/// A value read from one column of a result row. SQLite's REAL and BLOB
/// values, and TEXT that is not valid UTF-8, are all `OtherChirho`: none of
/// the columns read here accepts them.
pub enum SqlValueChirho {
    NullChirho,
    IntegerChirho(i64),
    TextChirho(String),
    OtherChirho,
}

/// An error of the database layer, with the message of the SQLite error.
#[derive(Debug)]
pub struct DbErrorChirho {
    pub message_chirho: String,
}

// ---------------------------------------------------------------------------
// Trusted calls into rusqlite
// ---------------------------------------------------------------------------

/// Opens (creating it if needed) the database file at `path` with
/// `rusqlite::Connection::open`. Whether that succeeds depends on the file
/// system, so nothing is stated of the result.
#[verifier::external_body]
fn open_connection_chirho(path: &str) -> (r: Result<rusqlite::Connection, rusqlite::Error>) {
    rusqlite::Connection::open(path)
}

/// Runs the statements of `sql` with `Connection::execute_batch`. The
/// outcome depends on the database, so nothing is stated of it.
#[verifier::external_body]
fn execute_batch_chirho(conn: &rusqlite::Connection, sql: &str) -> (r: Result<
    (),
    rusqlite::Error,
>) {
    conn.execute_batch(sql)
}

/// SQLite's NULL (`Value::Null`).
#[verifier::external_body]
fn null_value_chirho() -> (r: Value) {
    Value::Null
}

/// An SQLite integer (`Value::Integer`).
#[verifier::external_body]
fn integer_value_chirho(i: i64) -> (r: Value) {
    Value::Integer(i)
}

/// An SQLite text (`Value::Text`).
#[verifier::external_body]
fn text_value_chirho(s: String) -> (r: Value) {
    Value::Text(s)
}

/// The SQLite value of one parameter, variant for variant.
fn param_value_chirho(p: &SqlParamChirho) -> (r: Value) {
    match p {
        SqlParamChirho::NullChirho => null_value_chirho(),
        SqlParamChirho::IntegerChirho(i) => integer_value_chirho(*i),
        SqlParamChirho::TextChirho(s) => text_value_chirho(s.clone()),
    }
}

/// The SQLite values for `params`, in order.
fn bind_values_chirho(params: &Vec<SqlParamChirho>) -> (r: Vec<Value>)
    ensures
        r.len() == params.len(),
{
    let mut out: Vec<Value> = Vec::new();
    let mut i: usize = 0;
    while i < params.len()
        invariant
            i <= params.len(),
            out.len() == i,
        decreases params.len() - i,
    {
        out.push(param_value_chirho(&params[i]));
        i = i + 1;
    }
    out
}

/// Runs one statement with `Connection::execute`, binding `values` to
/// `?1`, `?2`, ... in order. The outcome depends on the database, so nothing
/// is stated of it.
#[verifier::external_body]
fn execute_values_chirho(conn: &rusqlite::Connection, sql: &str, values: Vec<Value>) -> (r:
    Result<usize, rusqlite::Error>) {
    conn.execute(sql, rusqlite::params_from_iter(values))
}

/// Runs one statement, binding `params` in order.
fn execute_chirho(conn: &rusqlite::Connection, sql: &str, params: &Vec<SqlParamChirho>) -> (r:
    Result<usize, rusqlite::Error>) {
    execute_values_chirho(conn, sql, bind_values_chirho(params))
}

/// Compiles `sql` with `Connection::prepare`; whether it compiles depends
/// on the database's schema, so nothing is stated of the result.
#[verifier::external_body]
fn prepare_chirho<'c>(conn: &'c rusqlite::Connection, sql: &str) -> (r: Result<
    rusqlite::Statement<'c>,
    rusqlite::Error,
>) {
    conn.prepare(sql)
}

/// Starts a prepared query with `Statement::query`, binding `values` to
/// `?1`, `?2`, ... in order. Nothing is stated of the result.
#[verifier::external_body]
fn start_query_chirho<'s, 'c>(stmt: &'s mut rusqlite::Statement<'c>, values: Vec<Value>) -> (r:
    Result<rusqlite::Rows<'s>, rusqlite::Error>) {
    stmt.query(rusqlite::params_from_iter(values))
}

/// Steps to the next result row with `Rows::next`: `Ok(None)` once the rows
/// have ended. Which rows there are depends on the database, so nothing is
/// stated of the result.
#[verifier::external_body]
fn next_row_chirho<'r, 's>(rows: &'r mut rusqlite::Rows<'s>) -> (r: Result<
    Option<&'r rusqlite::Row<'s>>,
    rusqlite::Error,
>) {
    rows.next()
}

/// Column `i` of `row`, read with `Row::get` as an owned `Value` and told
/// apart by variant; a REAL or BLOB value, and a failed read (such as TEXT
/// that is not UTF-8), are `OtherChirho`.
#[verifier::external_body]
fn column_value_chirho(row: &rusqlite::Row, i: usize) -> (r: SqlValueChirho) {
    match row.get::<usize, Value>(i) {
        Ok(Value::Null) => SqlValueChirho::NullChirho,
        Ok(Value::Integer(n)) => SqlValueChirho::IntegerChirho(n),
        Ok(Value::Text(s)) => SqlValueChirho::TextChirho(s),
        Ok(Value::Real(_)) => SqlValueChirho::OtherChirho,
        Ok(Value::Blob(_)) => SqlValueChirho::OtherChirho,
        Err(_) => SqlValueChirho::OtherChirho,
    }
}

/// The first `ncols` columns of `row`, in order.
fn row_values_chirho(row: &rusqlite::Row, ncols: usize) -> (r: Vec<SqlValueChirho>)
    ensures
        r.len() == ncols,
{
    let mut vals: Vec<SqlValueChirho> = Vec::new();
    let mut i: usize = 0;
    while i < ncols
        invariant
            i <= ncols,
            vals.len() == i,
        decreases ncols - i,
    {
        vals.push(column_value_chirho(row, i));
        i = i + 1;
    }
    vals
}

/// Runs a query, binding `params` in order, and reads the first `ncols`
/// columns of each row until the rows end or stepping fails. Every row read
/// has `ncols` values; which rows come back depends on the database.
fn query_chirho(
    conn: &rusqlite::Connection,
    sql: &str,
    params: &Vec<SqlParamChirho>,
    ncols: usize,
) -> (r: Result<Vec<Vec<SqlValueChirho>>, rusqlite::Error>)
    ensures
        r matches Ok(rows) ==> forall|i: int| 0 <= i < rows.len() ==> #[trigger] rows[i].len() == ncols,
{
    let mut stmt = prepare_chirho(conn, sql)?;
    let mut rows = start_query_chirho(&mut stmt, bind_values_chirho(params))?;
    let mut out: Vec<Vec<SqlValueChirho>> = Vec::new();
    // No vector reaches `usize::MAX` rows; that bound gives the loop its measure.
    while out.len() < usize::MAX
        invariant
            forall|i: int| 0 <= i < out.len() ==> #[trigger] out[i].len() == ncols,
        decreases usize::MAX - out.len(),
    {
        match next_row_chirho(&mut rows) {
            Ok(Some(row)) => {
                out.push(row_values_chirho(row, ncols));
            },
            _ => {
                break;
            },
        }
    }
    Ok(out)
}

/// The rowid of the last row inserted on `conn`
/// (`Connection::last_insert_rowid`); it depends on the database, so
/// nothing is stated of it.
#[verifier::external_body]
fn last_insert_rowid_chirho(conn: &rusqlite::Connection) -> (r: i64) {
    conn.last_insert_rowid()
}

/// The message of an SQLite error (`to_string` of its `Display`).
#[verifier::external_body]
fn sql_error_message_chirho(e: &rusqlite::Error) -> (r: String) {
    e.to_string()
}

/// Maps an SQLite error to the library's error.
fn db_error_chirho(e: rusqlite::Error) -> (r: DbErrorChirho) {
    DbErrorChirho { message_chirho: sql_error_message_chirho(&e) }
}

// ---------------------------------------------------------------------------
// Column conversions (the rules of rusqlite's `FromSql`)
// ---------------------------------------------------------------------------

/// An INTEGER column read as `i64`.
pub open spec fn spec_i64_col_chirho(v: SqlValueChirho) -> Option<i64> {
    match v {
        SqlValueChirho::IntegerChirho(i) => Some(i),
        _ => None,
    }
}

/// An INTEGER column read as `i32`: out-of-range values are refused.
pub open spec fn spec_i32_col_chirho(v: SqlValueChirho) -> Option<i32> {
    match v {
        SqlValueChirho::IntegerChirho(i) => if i32::MIN <= i <= i32::MAX {
            Some(i as i32)
        } else {
            None
        },
        _ => None,
    }
}

/// A TEXT column read as `String`.
pub open spec fn spec_text_col_chirho(v: SqlValueChirho) -> Option<String> {
    match v {
        SqlValueChirho::TextChirho(s) => Some(s),
        _ => None,
    }
}

/// A nullable TEXT column read as `Option<String>`.
pub open spec fn spec_opt_text_col_chirho(v: SqlValueChirho) -> Option<Option<String>> {
    match v {
        SqlValueChirho::NullChirho => Some(None),
        SqlValueChirho::TextChirho(s) => Some(Some(s)),
        _ => None,
    }
}

fn i64_col_chirho(v: &SqlValueChirho) -> (r: Option<i64>)
    ensures
        r == spec_i64_col_chirho(*v),
{
    match v {
        SqlValueChirho::IntegerChirho(i) => Some(*i),
        _ => None,
    }
}

fn i32_col_chirho(v: &SqlValueChirho) -> (r: Option<i32>)
    ensures
        r == spec_i32_col_chirho(*v),
{
    match v {
        SqlValueChirho::IntegerChirho(i) => if -2147483648 <= *i && *i <= 2147483647 {
            Some(*i as i32)
        } else {
            None
        },
        _ => None,
    }
}

fn text_col_chirho(v: &SqlValueChirho) -> (r: Option<String>)
    ensures
        r == spec_text_col_chirho(*v),
{
    match v {
        SqlValueChirho::TextChirho(s) => Some(s.clone()),
        _ => None,
    }
}

fn opt_text_col_chirho(v: &SqlValueChirho) -> (r: Option<Option<String>>)
    ensures
        r == spec_opt_text_col_chirho(*v),
{
    match v {
        SqlValueChirho::NullChirho => Some(None),
        SqlValueChirho::TextChirho(s) => Some(Some(s.clone())),
        _ => None,
    }
}

// ---------------------------------------------------------------------------
// Records and their row decoders
// ---------------------------------------------------------------------------

/// Reading history entry (a place read and when).
#[derive(Clone, Debug)]
pub struct HistoryEntryChirho {
    pub id_chirho: i64,
    pub book_chirho: String,
    pub chapter_chirho: i32,
    pub timestamp_chirho: String,
}

/// The history a result row holds, if every column converts.
pub open spec fn spec_history_of_row_chirho(row: Vec<SqlValueChirho>) -> Option<HistoryEntryChirho> {
    if row@.len() == 4 && spec_i64_col_chirho(row@[0]) is Some && spec_text_col_chirho(row@[1]) is Some && spec_i32_col_chirho(row@[2]) is Some && spec_text_col_chirho(row@[3]) is Some {
        Some(HistoryEntryChirho {
            id_chirho: spec_i64_col_chirho(row@[0])->0,
            book_chirho: spec_text_col_chirho(row@[1])->0,
            chapter_chirho: spec_i32_col_chirho(row@[2])->0,
            timestamp_chirho: spec_text_col_chirho(row@[3])->0,
        })
    } else {
        None
    }
}

/// The row decoder of `HistoryEntryChirho`.
pub open spec fn spec_history_row_fn_chirho() -> spec_fn(Vec<SqlValueChirho>) -> Option<HistoryEntryChirho> {
    |row: Vec<SqlValueChirho>| spec_history_of_row_chirho(row)
}

fn history_of_row_chirho(row: &Vec<SqlValueChirho>) -> (r: Option<HistoryEntryChirho>)
    ensures
        r == spec_history_of_row_chirho(*row),
{
    if row.len() != 4 {
        return None;
    }
    let c0 = i64_col_chirho(&row[0]);
    let c1 = text_col_chirho(&row[1]);
    let c2 = i32_col_chirho(&row[2]);
    let c3 = text_col_chirho(&row[3]);
    match (c0, c1, c2, c3) {
        (Some(v0), Some(v1), Some(v2), Some(v3)) => Some(HistoryEntryChirho {
            id_chirho: v0,
            book_chirho: v1,
            chapter_chirho: v2,
            timestamp_chirho: v3,
        }),
        _ => None,
    }
}

/// Decodes result rows into `HistoryEntryChirho` values, skipping each row whose
/// columns do not convert, in the order of the rows.
pub fn decode_history_rows_chirho(rows: &Vec<Vec<SqlValueChirho>>) -> (r: Vec<HistoryEntryChirho>)
    ensures
        r@ == rows@.filter_map(spec_history_row_fn_chirho()),
{
    let mut out: Vec<HistoryEntryChirho> = Vec::new();
    let mut i: usize = 0;
    while i < rows.len()
        invariant
            i <= rows.len(),
            out@ == rows@.take(i as int).filter_map(spec_history_row_fn_chirho()),
        decreases rows.len() - i,
    {
        proof {
            rows@.lemma_filter_map_take_succ(spec_history_row_fn_chirho(), i as int);
        }
        match history_of_row_chirho(&rows[i]) {
            Some(v) => out.push(v),
            None => {},
        }
        i += 1;
    }
    assert(rows@.take(rows.len() as int) =~= rows@);
    out
}

/// A highlighted verse.
#[derive(Clone, Debug)]
pub struct HighlightChirho {
    pub id_chirho: i64,
    pub module_chirho: String,
    pub book_chirho: String,
    pub chapter_chirho: i32,
    pub verse_chirho: i32,
    pub color_chirho: String,
}

/// The highlight a result row holds, if every column converts.
pub open spec fn spec_highlight_of_row_chirho(row: Vec<SqlValueChirho>) -> Option<HighlightChirho> {
    if row@.len() == 6 && spec_i64_col_chirho(row@[0]) is Some && spec_text_col_chirho(row@[1]) is Some && spec_text_col_chirho(row@[2]) is Some && spec_i32_col_chirho(row@[3]) is Some && spec_i32_col_chirho(row@[4]) is Some && spec_text_col_chirho(row@[5]) is Some {
        Some(HighlightChirho {
            id_chirho: spec_i64_col_chirho(row@[0])->0,
            module_chirho: spec_text_col_chirho(row@[1])->0,
            book_chirho: spec_text_col_chirho(row@[2])->0,
            chapter_chirho: spec_i32_col_chirho(row@[3])->0,
            verse_chirho: spec_i32_col_chirho(row@[4])->0,
            color_chirho: spec_text_col_chirho(row@[5])->0,
        })
    } else {
        None
    }
}

/// The row decoder of `HighlightChirho`.
pub open spec fn spec_highlight_row_fn_chirho() -> spec_fn(Vec<SqlValueChirho>) -> Option<HighlightChirho> {
    |row: Vec<SqlValueChirho>| spec_highlight_of_row_chirho(row)
}

fn highlight_of_row_chirho(row: &Vec<SqlValueChirho>) -> (r: Option<HighlightChirho>)
    ensures
        r == spec_highlight_of_row_chirho(*row),
{
    if row.len() != 6 {
        return None;
    }
    let c0 = i64_col_chirho(&row[0]);
    let c1 = text_col_chirho(&row[1]);
    let c2 = text_col_chirho(&row[2]);
    let c3 = i32_col_chirho(&row[3]);
    let c4 = i32_col_chirho(&row[4]);
    let c5 = text_col_chirho(&row[5]);
    match (c0, c1, c2, c3, c4, c5) {
        (Some(v0), Some(v1), Some(v2), Some(v3), Some(v4), Some(v5)) => Some(HighlightChirho {
            id_chirho: v0,
            module_chirho: v1,
            book_chirho: v2,
            chapter_chirho: v3,
            verse_chirho: v4,
            color_chirho: v5,
        }),
        _ => None,
    }
}

/// Decodes result rows into `HighlightChirho` values, skipping each row whose
/// columns do not convert, in the order of the rows.
pub fn decode_highlight_rows_chirho(rows: &Vec<Vec<SqlValueChirho>>) -> (r: Vec<HighlightChirho>)
    ensures
        r@ == rows@.filter_map(spec_highlight_row_fn_chirho()),
{
    let mut out: Vec<HighlightChirho> = Vec::new();
    let mut i: usize = 0;
    while i < rows.len()
        invariant
            i <= rows.len(),
            out@ == rows@.take(i as int).filter_map(spec_highlight_row_fn_chirho()),
        decreases rows.len() - i,
    {
        proof {
            rows@.lemma_filter_map_take_succ(spec_highlight_row_fn_chirho(), i as int);
        }
        match highlight_of_row_chirho(&rows[i]) {
            Some(v) => out.push(v),
            None => {},
        }
        i += 1;
    }
    assert(rows@.take(rows.len() as int) =~= rows@);
    out
}

/// A bookmarked verse.
#[derive(Clone, Debug)]
pub struct BookmarkChirho {
    pub id_chirho: i64,
    pub module_chirho: String,
    pub book_chirho: String,
    pub chapter_chirho: i32,
    pub verse_chirho: i32,
    pub label_chirho: Option<String>,
}

/// The bookmark a result row holds, if every column converts.
pub open spec fn spec_bookmark_of_row_chirho(row: Vec<SqlValueChirho>) -> Option<BookmarkChirho> {
    if row@.len() == 6 && spec_i64_col_chirho(row@[0]) is Some && spec_text_col_chirho(row@[1]) is Some && spec_text_col_chirho(row@[2]) is Some && spec_i32_col_chirho(row@[3]) is Some && spec_i32_col_chirho(row@[4]) is Some && spec_opt_text_col_chirho(row@[5]) is Some {
        Some(BookmarkChirho {
            id_chirho: spec_i64_col_chirho(row@[0])->0,
            module_chirho: spec_text_col_chirho(row@[1])->0,
            book_chirho: spec_text_col_chirho(row@[2])->0,
            chapter_chirho: spec_i32_col_chirho(row@[3])->0,
            verse_chirho: spec_i32_col_chirho(row@[4])->0,
            label_chirho: spec_opt_text_col_chirho(row@[5])->0,
        })
    } else {
        None
    }
}

/// The row decoder of `BookmarkChirho`.
pub open spec fn spec_bookmark_row_fn_chirho() -> spec_fn(Vec<SqlValueChirho>) -> Option<BookmarkChirho> {
    |row: Vec<SqlValueChirho>| spec_bookmark_of_row_chirho(row)
}

fn bookmark_of_row_chirho(row: &Vec<SqlValueChirho>) -> (r: Option<BookmarkChirho>)
    ensures
        r == spec_bookmark_of_row_chirho(*row),
{
    if row.len() != 6 {
        return None;
    }
    let c0 = i64_col_chirho(&row[0]);
    let c1 = text_col_chirho(&row[1]);
    let c2 = text_col_chirho(&row[2]);
    let c3 = i32_col_chirho(&row[3]);
    let c4 = i32_col_chirho(&row[4]);
    let c5 = opt_text_col_chirho(&row[5]);
    match (c0, c1, c2, c3, c4, c5) {
        (Some(v0), Some(v1), Some(v2), Some(v3), Some(v4), Some(v5)) => Some(BookmarkChirho {
            id_chirho: v0,
            module_chirho: v1,
            book_chirho: v2,
            chapter_chirho: v3,
            verse_chirho: v4,
            label_chirho: v5,
        }),
        _ => None,
    }
}

/// Decodes result rows into `BookmarkChirho` values, skipping each row whose
/// columns do not convert, in the order of the rows.
pub fn decode_bookmark_rows_chirho(rows: &Vec<Vec<SqlValueChirho>>) -> (r: Vec<BookmarkChirho>)
    ensures
        r@ == rows@.filter_map(spec_bookmark_row_fn_chirho()),
{
    let mut out: Vec<BookmarkChirho> = Vec::new();
    let mut i: usize = 0;
    while i < rows.len()
        invariant
            i <= rows.len(),
            out@ == rows@.take(i as int).filter_map(spec_bookmark_row_fn_chirho()),
        decreases rows.len() - i,
    {
        proof {
            rows@.lemma_filter_map_take_succ(spec_bookmark_row_fn_chirho(), i as int);
        }
        match bookmark_of_row_chirho(&rows[i]) {
            Some(v) => out.push(v),
            None => {},
        }
        i += 1;
    }
    assert(rows@.take(rows.len() as int) =~= rows@);
    out
}

/// A note on a verse.
#[derive(Clone, Debug)]
pub struct NoteChirho {
    pub id_chirho: i64,
    pub module_chirho: String,
    pub book_chirho: String,
    pub chapter_chirho: i32,
    pub verse_chirho: i32,
    pub content_chirho: String,
    pub created_at_chirho: String,
    pub updated_at_chirho: String,
}

/// The note a result row holds, if every column converts.
pub open spec fn spec_note_of_row_chirho(row: Vec<SqlValueChirho>) -> Option<NoteChirho> {
    if row@.len() == 8 && spec_i64_col_chirho(row@[0]) is Some && spec_text_col_chirho(row@[1]) is Some && spec_text_col_chirho(row@[2]) is Some && spec_i32_col_chirho(row@[3]) is Some && spec_i32_col_chirho(row@[4]) is Some && spec_text_col_chirho(row@[5]) is Some && spec_text_col_chirho(row@[6]) is Some && spec_text_col_chirho(row@[7]) is Some {
        Some(NoteChirho {
            id_chirho: spec_i64_col_chirho(row@[0])->0,
            module_chirho: spec_text_col_chirho(row@[1])->0,
            book_chirho: spec_text_col_chirho(row@[2])->0,
            chapter_chirho: spec_i32_col_chirho(row@[3])->0,
            verse_chirho: spec_i32_col_chirho(row@[4])->0,
            content_chirho: spec_text_col_chirho(row@[5])->0,
            created_at_chirho: spec_text_col_chirho(row@[6])->0,
            updated_at_chirho: spec_text_col_chirho(row@[7])->0,
        })
    } else {
        None
    }
}

/// The row decoder of `NoteChirho`.
pub open spec fn spec_note_row_fn_chirho() -> spec_fn(Vec<SqlValueChirho>) -> Option<NoteChirho> {
    |row: Vec<SqlValueChirho>| spec_note_of_row_chirho(row)
}

fn note_of_row_chirho(row: &Vec<SqlValueChirho>) -> (r: Option<NoteChirho>)
    ensures
        r == spec_note_of_row_chirho(*row),
{
    if row.len() != 8 {
        return None;
    }
    let c0 = i64_col_chirho(&row[0]);
    let c1 = text_col_chirho(&row[1]);
    let c2 = text_col_chirho(&row[2]);
    let c3 = i32_col_chirho(&row[3]);
    let c4 = i32_col_chirho(&row[4]);
    let c5 = text_col_chirho(&row[5]);
    let c6 = text_col_chirho(&row[6]);
    let c7 = text_col_chirho(&row[7]);
    match (c0, c1, c2, c3, c4, c5, c6, c7) {
        (Some(v0), Some(v1), Some(v2), Some(v3), Some(v4), Some(v5), Some(v6), Some(v7)) => Some(NoteChirho {
            id_chirho: v0,
            module_chirho: v1,
            book_chirho: v2,
            chapter_chirho: v3,
            verse_chirho: v4,
            content_chirho: v5,
            created_at_chirho: v6,
            updated_at_chirho: v7,
        }),
        _ => None,
    }
}

/// Decodes result rows into `NoteChirho` values, skipping each row whose
/// columns do not convert, in the order of the rows.
pub fn decode_note_rows_chirho(rows: &Vec<Vec<SqlValueChirho>>) -> (r: Vec<NoteChirho>)
    ensures
        r@ == rows@.filter_map(spec_note_row_fn_chirho()),
{
    let mut out: Vec<NoteChirho> = Vec::new();
    let mut i: usize = 0;
    while i < rows.len()
        invariant
            i <= rows.len(),
            out@ == rows@.take(i as int).filter_map(spec_note_row_fn_chirho()),
        decreases rows.len() - i,
    {
        proof {
            rows@.lemma_filter_map_take_succ(spec_note_row_fn_chirho(), i as int);
        }
        match note_of_row_chirho(&rows[i]) {
            Some(v) => out.push(v),
            None => {},
        }
        i += 1;
    }
    assert(rows@.take(rows.len() as int) =~= rows@);
    out
}

/// The colour of a highlighted verse of a chapter.
#[derive(Clone, Debug)]
pub struct HighlightInfoChirho {
    pub verse_chirho: i32,
    pub color_chirho: String,
}

/// The highlight info a result row holds, if every column converts.
pub open spec fn spec_highlight_info_of_row_chirho(row: Vec<SqlValueChirho>) -> Option<HighlightInfoChirho> {
    if row@.len() == 2 && spec_i32_col_chirho(row@[0]) is Some && spec_text_col_chirho(row@[1]) is Some {
        Some(HighlightInfoChirho {
            verse_chirho: spec_i32_col_chirho(row@[0])->0,
            color_chirho: spec_text_col_chirho(row@[1])->0,
        })
    } else {
        None
    }
}

/// The row decoder of `HighlightInfoChirho`.
pub open spec fn spec_highlight_info_row_fn_chirho() -> spec_fn(Vec<SqlValueChirho>) -> Option<HighlightInfoChirho> {
    |row: Vec<SqlValueChirho>| spec_highlight_info_of_row_chirho(row)
}

fn highlight_info_of_row_chirho(row: &Vec<SqlValueChirho>) -> (r: Option<HighlightInfoChirho>)
    ensures
        r == spec_highlight_info_of_row_chirho(*row),
{
    if row.len() != 2 {
        return None;
    }
    let c0 = i32_col_chirho(&row[0]);
    let c1 = text_col_chirho(&row[1]);
    match (c0, c1) {
        (Some(v0), Some(v1)) => Some(HighlightInfoChirho {
            verse_chirho: v0,
            color_chirho: v1,
        }),
        _ => None,
    }
}

/// Decodes result rows into `HighlightInfoChirho` values, skipping each row whose
/// columns do not convert, in the order of the rows.
pub fn decode_highlight_info_rows_chirho(rows: &Vec<Vec<SqlValueChirho>>) -> (r: Vec<HighlightInfoChirho>)
    ensures
        r@ == rows@.filter_map(spec_highlight_info_row_fn_chirho()),
{
    let mut out: Vec<HighlightInfoChirho> = Vec::new();
    let mut i: usize = 0;
    while i < rows.len()
        invariant
            i <= rows.len(),
            out@ == rows@.take(i as int).filter_map(spec_highlight_info_row_fn_chirho()),
        decreases rows.len() - i,
    {
        proof {
            rows@.lemma_filter_map_take_succ(spec_highlight_info_row_fn_chirho(), i as int);
        }
        match highlight_info_of_row_chirho(&rows[i]) {
            Some(v) => out.push(v),
            None => {},
        }
        i += 1;
    }
    assert(rows@.take(rows.len() as int) =~= rows@);
    out
}

/// A study journal entry.
#[derive(Clone, Debug)]
pub struct JournalEntryChirho {
    pub id_chirho: i64,
    pub title_chirho: String,
    pub content_chirho: String,
    pub verse_ref_chirho: Option<String>,
    pub tags_chirho: Option<String>,
    pub created_at_chirho: String,
    pub updated_at_chirho: String,
}

/// The journal a result row holds, if every column converts.
pub open spec fn spec_journal_of_row_chirho(row: Vec<SqlValueChirho>) -> Option<JournalEntryChirho> {
    if row@.len() == 7 && spec_i64_col_chirho(row@[0]) is Some && spec_text_col_chirho(row@[1]) is Some && spec_text_col_chirho(row@[2]) is Some && spec_opt_text_col_chirho(row@[3]) is Some && spec_opt_text_col_chirho(row@[4]) is Some && spec_text_col_chirho(row@[5]) is Some && spec_text_col_chirho(row@[6]) is Some {
        Some(JournalEntryChirho {
            id_chirho: spec_i64_col_chirho(row@[0])->0,
            title_chirho: spec_text_col_chirho(row@[1])->0,
            content_chirho: spec_text_col_chirho(row@[2])->0,
            verse_ref_chirho: spec_opt_text_col_chirho(row@[3])->0,
            tags_chirho: spec_opt_text_col_chirho(row@[4])->0,
            created_at_chirho: spec_text_col_chirho(row@[5])->0,
            updated_at_chirho: spec_text_col_chirho(row@[6])->0,
        })
    } else {
        None
    }
}

/// The row decoder of `JournalEntryChirho`.
pub open spec fn spec_journal_row_fn_chirho() -> spec_fn(Vec<SqlValueChirho>) -> Option<JournalEntryChirho> {
    |row: Vec<SqlValueChirho>| spec_journal_of_row_chirho(row)
}

fn journal_of_row_chirho(row: &Vec<SqlValueChirho>) -> (r: Option<JournalEntryChirho>)
    ensures
        r == spec_journal_of_row_chirho(*row),
{
    if row.len() != 7 {
        return None;
    }
    let c0 = i64_col_chirho(&row[0]);
    let c1 = text_col_chirho(&row[1]);
    let c2 = text_col_chirho(&row[2]);
    let c3 = opt_text_col_chirho(&row[3]);
    let c4 = opt_text_col_chirho(&row[4]);
    let c5 = text_col_chirho(&row[5]);
    let c6 = text_col_chirho(&row[6]);
    match (c0, c1, c2, c3, c4, c5, c6) {
        (Some(v0), Some(v1), Some(v2), Some(v3), Some(v4), Some(v5), Some(v6)) => Some(JournalEntryChirho {
            id_chirho: v0,
            title_chirho: v1,
            content_chirho: v2,
            verse_ref_chirho: v3,
            tags_chirho: v4,
            created_at_chirho: v5,
            updated_at_chirho: v6,
        }),
        _ => None,
    }
}

/// Decodes result rows into `JournalEntryChirho` values, skipping each row whose
/// columns do not convert, in the order of the rows.
pub fn decode_journal_rows_chirho(rows: &Vec<Vec<SqlValueChirho>>) -> (r: Vec<JournalEntryChirho>)
    ensures
        r@ == rows@.filter_map(spec_journal_row_fn_chirho()),
{
    let mut out: Vec<JournalEntryChirho> = Vec::new();
    let mut i: usize = 0;
    while i < rows.len()
        invariant
            i <= rows.len(),
            out@ == rows@.take(i as int).filter_map(spec_journal_row_fn_chirho()),
        decreases rows.len() - i,
    {
        proof {
            rows@.lemma_filter_map_take_succ(spec_journal_row_fn_chirho(), i as int);
        }
        match journal_of_row_chirho(&rows[i]) {
            Some(v) => out.push(v),
            None => {},
        }
        i += 1;
    }
    assert(rows@.take(rows.len() as int) =~= rows@);
    out
}

/// A prayer request.
#[derive(Clone, Debug)]
pub struct PrayerRequestChirho {
    pub id_chirho: i64,
    pub title_chirho: String,
    pub description_chirho: Option<String>,
    pub verse_ref_chirho: Option<String>,
    pub category_chirho: Option<String>,
    pub is_answered_chirho: bool,
    pub answered_at_chirho: Option<String>,
    pub created_at_chirho: String,
}

/// The prayer a result row holds, if every column converts.
pub open spec fn spec_prayer_of_row_chirho(row: Vec<SqlValueChirho>) -> Option<PrayerRequestChirho> {
    if row@.len() == 8 && spec_i64_col_chirho(row@[0]) is Some && spec_text_col_chirho(row@[1]) is Some && spec_opt_text_col_chirho(row@[2]) is Some && spec_opt_text_col_chirho(row@[3]) is Some && spec_opt_text_col_chirho(row@[4]) is Some && spec_i32_col_chirho(row@[5]) is Some && spec_opt_text_col_chirho(row@[6]) is Some && spec_text_col_chirho(row@[7]) is Some {
        Some(PrayerRequestChirho {
            id_chirho: spec_i64_col_chirho(row@[0])->0,
            title_chirho: spec_text_col_chirho(row@[1])->0,
            description_chirho: spec_opt_text_col_chirho(row@[2])->0,
            verse_ref_chirho: spec_opt_text_col_chirho(row@[3])->0,
            category_chirho: spec_opt_text_col_chirho(row@[4])->0,
            is_answered_chirho: spec_i32_col_chirho(row@[5])->0 != 0,
            answered_at_chirho: spec_opt_text_col_chirho(row@[6])->0,
            created_at_chirho: spec_text_col_chirho(row@[7])->0,
        })
    } else {
        None
    }
}

/// The row decoder of `PrayerRequestChirho`.
pub open spec fn spec_prayer_row_fn_chirho() -> spec_fn(Vec<SqlValueChirho>) -> Option<PrayerRequestChirho> {
    |row: Vec<SqlValueChirho>| spec_prayer_of_row_chirho(row)
}

fn prayer_of_row_chirho(row: &Vec<SqlValueChirho>) -> (r: Option<PrayerRequestChirho>)
    ensures
        r == spec_prayer_of_row_chirho(*row),
{
    if row.len() != 8 {
        return None;
    }
    let c0 = i64_col_chirho(&row[0]);
    let c1 = text_col_chirho(&row[1]);
    let c2 = opt_text_col_chirho(&row[2]);
    let c3 = opt_text_col_chirho(&row[3]);
    let c4 = opt_text_col_chirho(&row[4]);
    let c5 = i32_col_chirho(&row[5]);
    let c6 = opt_text_col_chirho(&row[6]);
    let c7 = text_col_chirho(&row[7]);
    match (c0, c1, c2, c3, c4, c5, c6, c7) {
        (Some(v0), Some(v1), Some(v2), Some(v3), Some(v4), Some(v5), Some(v6), Some(v7)) => Some(PrayerRequestChirho {
            id_chirho: v0,
            title_chirho: v1,
            description_chirho: v2,
            verse_ref_chirho: v3,
            category_chirho: v4,
            is_answered_chirho: v5 != 0,
            answered_at_chirho: v6,
            created_at_chirho: v7,
        }),
        _ => None,
    }
}

/// Decodes result rows into `PrayerRequestChirho` values, skipping each row whose
/// columns do not convert, in the order of the rows.
pub fn decode_prayer_rows_chirho(rows: &Vec<Vec<SqlValueChirho>>) -> (r: Vec<PrayerRequestChirho>)
    ensures
        r@ == rows@.filter_map(spec_prayer_row_fn_chirho()),
{
    let mut out: Vec<PrayerRequestChirho> = Vec::new();
    let mut i: usize = 0;
    while i < rows.len()
        invariant
            i <= rows.len(),
            out@ == rows@.take(i as int).filter_map(spec_prayer_row_fn_chirho()),
        decreases rows.len() - i,
    {
        proof {
            rows@.lemma_filter_map_take_succ(spec_prayer_row_fn_chirho(), i as int);
        }
        match prayer_of_row_chirho(&rows[i]) {
            Some(v) => out.push(v),
            None => {},
        }
        i += 1;
    }
    assert(rows@.take(rows.len() as int) =~= rows@);
    out
}

// ---------------------------------------------------------------------------
// Single values out of result rows
// ---------------------------------------------------------------------------

/// The set of `i32` values in the first column of the rows whose first
/// column converts.
pub open spec fn spec_verse_set_chirho(rows: Seq<Vec<SqlValueChirho>>) -> Set<i32> {
    rows.filter_map(spec_first_i32_fn_chirho()).to_set()
}

/// The first column of a row read as `i32`.
pub open spec fn spec_first_i32_fn_chirho() -> spec_fn(Vec<SqlValueChirho>) -> Option<i32> {
    |row: Vec<SqlValueChirho>| if row@.len() > 0 {
        spec_i32_col_chirho(row@[0])
    } else {
        None
    }
}

fn first_i32_chirho(row: &Vec<SqlValueChirho>) -> (r: Option<i32>)
    ensures
        r == (spec_first_i32_fn_chirho())(*row),
{
    if row.len() > 0 {
        i32_col_chirho(&row[0])
    } else {
        None
    }
}

/// Collects the verse numbers of result rows into a set, skipping rows whose
/// first column is not an `i32`.
pub fn verse_set_from_rows_chirho(rows: &Vec<Vec<SqlValueChirho>>) -> (r: HashSet<i32>)
    ensures
        r@ == spec_verse_set_chirho(rows@),
{
    broadcast use vstd::std_specs::hash::group_hash_axioms;
    let mut out: HashSet<i32> = HashSet::new();
    let mut i: usize = 0;
    while i < rows.len()
        invariant
            i <= rows.len(),
            out@ == rows@.take(i as int).filter_map(spec_first_i32_fn_chirho()).to_set(),
        decreases rows.len() - i,
    {
        proof {
            rows@.lemma_filter_map_take_succ(spec_first_i32_fn_chirho(), i as int);
        }
        let ghost before = rows@.take(i as int).filter_map(spec_first_i32_fn_chirho());
        match first_i32_chirho(&rows[i]) {
            Some(v) => {
                out.insert(v);
                proof {
                    before.lemma_push_to_set_commute(v);
                    assert(before + seq![v] =~= before.push(v));
                }
            },
            None => {},
        }
        i += 1;
    }
    assert(rows@.take(rows.len() as int) =~= rows@);
    out
}

/// What a single-row query answers: the first row, if any.
pub open spec fn spec_first_row_chirho(rows: Seq<Vec<SqlValueChirho>>) -> Option<Vec<SqlValueChirho>> {
    if rows.len() > 0 {
        Some(rows[0])
    } else {
        None
    }
}

/// The text of the first column of the first row, if there is a row and
/// the column is text.
pub open spec fn spec_first_text_chirho(rows: Seq<Vec<SqlValueChirho>>) -> Option<String> {
    match spec_first_row_chirho(rows) {
        Some(row) => if row@.len() > 0 {
            spec_text_col_chirho(row@[0])
        } else {
            None
        },
        None => None,
    }
}

/// The text of the first column of the first row (see `spec_first_text_chirho`).
pub fn first_text_of_rows_chirho(rows: &Vec<Vec<SqlValueChirho>>) -> (r: Option<String>)
    ensures
        r == spec_first_text_chirho(rows@),
{
    if rows.len() > 0 && rows[0].len() > 0 {
        text_col_chirho(&rows[0][0])
    } else {
        None
    }
}

/// The `i64` of the first column of the first row, if any.
pub open spec fn spec_first_i64_chirho(rows: Seq<Vec<SqlValueChirho>>) -> Option<i64> {
    match spec_first_row_chirho(rows) {
        Some(row) => if row@.len() > 0 {
            spec_i64_col_chirho(row@[0])
        } else {
            None
        },
        None => None,
    }
}

/// The `i64` of the first column of the first row (see `spec_first_i64_chirho`).
pub fn first_i64_of_rows_chirho(rows: &Vec<Vec<SqlValueChirho>>) -> (r: Option<i64>)
    ensures
        r == spec_first_i64_chirho(rows@),
{
    if rows.len() > 0 && rows[0].len() > 0 {
        i64_col_chirho(&rows[0][0])
    } else {
        None
    }
}

/// A count read as `i32` from the first row, or 0 when there is no row or
/// the value does not fit.
pub open spec fn spec_count_chirho(rows: Seq<Vec<SqlValueChirho>>) -> i32 {
    match spec_first_row_chirho(rows) {
        Some(row) => if row@.len() > 0 && spec_i32_col_chirho(row@[0]) is Some {
            spec_i32_col_chirho(row@[0])->0
        } else {
            0
        },
        None => 0,
    }
}

/// A count out of a `COUNT(*)` query (see `spec_count_chirho`).
pub fn count_of_rows_chirho(rows: &Vec<Vec<SqlValueChirho>>) -> (r: i32)
    ensures
        r == spec_count_chirho(rows@),
{
    if rows.len() > 0 && rows[0].len() > 0 {
        match i32_col_chirho(&rows[0][0]) {
            Some(n) => n,
            None => 0,
        }
    } else {
        0
    }
}

/// Whether a lookup found anything: whether there is a row.
pub open spec fn spec_has_rows_chirho(rows: Seq<Vec<SqlValueChirho>>) -> bool {
    rows.len() > 0
}

/// Whether there is a row (see `spec_has_rows_chirho`).
pub fn has_rows_chirho(rows: &Vec<Vec<SqlValueChirho>>) -> (r: bool)
    ensures
        r == spec_has_rows_chirho(rows@),
{
    rows.len() > 0
}

/// The `LIKE` pattern that finds `query` anywhere in a text.
pub open spec fn spec_like_pattern_chirho(query: Seq<char>) -> Seq<char> {
    seq!['%'] + query + seq!['%']
}

/// Builds the `LIKE` pattern `%query%`.
pub fn like_pattern_chirho(query: &str) -> (r: String)
    ensures
        r@ == spec_like_pattern_chirho(query@),
{
    let mut t = String::from_str("%");
    t.append(query);
    t.append("%");
    proof {
        reveal_strlit("%");
    }
    assert(t@ =~= spec_like_pattern_chirho(query@));
    t
}

// ---------------------------------------------------------------------------
// Running statements
// ---------------------------------------------------------------------------

/// A parameter value as contracts speak of it.
pub enum SqlParamViewChirho {
    NullChirho,
    IntegerChirho(int),
    TextChirho(Seq<char>),
}

/// The view of one parameter value.
pub open spec fn spec_param_view_chirho(p: SqlParamChirho) -> SqlParamViewChirho {
    match p {
        SqlParamChirho::NullChirho => SqlParamViewChirho::NullChirho,
        SqlParamChirho::IntegerChirho(i) => SqlParamViewChirho::IntegerChirho(i as int),
        SqlParamChirho::TextChirho(t) => SqlParamViewChirho::TextChirho(t@),
    }
}

/// The views of parameter values, in order.
pub open spec fn spec_params_view_chirho(ps: Seq<SqlParamChirho>) -> Seq<SqlParamViewChirho> {
    ps.map_values(|p: SqlParamChirho| spec_param_view_chirho(p))
}

/// A text parameter's view.
pub open spec fn spec_text_param_chirho(s: Seq<char>) -> SqlParamViewChirho {
    SqlParamViewChirho::TextChirho(s)
}

/// An optional text parameter's view: NULL for `None`.
pub open spec fn spec_opt_text_param_chirho(s: Option<Seq<char>>) -> SqlParamViewChirho {
    match s {
        Some(t) => SqlParamViewChirho::TextChirho(t),
        None => SqlParamViewChirho::NullChirho,
    }
}

/// The parameters that name one chapter: module, book, chapter.
pub open spec fn spec_chapter_key_chirho(module: Seq<char>, book: Seq<char>, chapter: int) -> Seq<
    SqlParamViewChirho,
> {
    seq![
        SqlParamViewChirho::TextChirho(module),
        SqlParamViewChirho::TextChirho(book),
        SqlParamViewChirho::IntegerChirho(chapter),
    ]
}

/// The parameters that name one verse: module, book, chapter, verse.
pub open spec fn spec_verse_key_chirho(
    module: Seq<char>,
    book: Seq<char>,
    chapter: int,
    verse: int,
) -> Seq<SqlParamViewChirho> {
    spec_chapter_key_chirho(module, book, chapter).push(SqlParamViewChirho::IntegerChirho(verse))
}

/// An SQL statement with the values bound to its `?1`, `?2`, ... in order.
pub struct SqlStatementChirho {
    pub sql_chirho: &'static str,
    pub params_chirho: Vec<SqlParamChirho>,
}

/// Whether `st` is the SQL `sql` with the parameters `params`.
pub open spec fn spec_statement_is_chirho(
    st: SqlStatementChirho,
    sql: &'static str,
    params: Seq<SqlParamViewChirho>,
) -> bool {
    st.sql_chirho@ == sql@ && spec_params_view_chirho(st.params_chirho@) == params
}

fn text_param_chirho(s: &str) -> (r: SqlParamChirho)
    ensures
        spec_param_view_chirho(r) == spec_text_param_chirho(s@),
{
    SqlParamChirho::TextChirho(String::from_str(s))
}

/// The view of an optional text.
pub open spec fn spec_opt_str_chirho(s: Option<&str>) -> Option<Seq<char>> {
    match s {
        Some(t) => Some(t@),
        None => None,
    }
}

fn opt_text_param_chirho(s: Option<&str>) -> (r: SqlParamChirho)
    ensures
        spec_param_view_chirho(r) == spec_opt_text_param_chirho(spec_opt_str_chirho(s)),
{
    match s {
        Some(t) => SqlParamChirho::TextChirho(String::from_str(t)),
        None => SqlParamChirho::NullChirho,
    }
}

/// The statement `sql` with no parameters.
fn plain_statement_chirho(sql: &'static str) -> (r: SqlStatementChirho)
    ensures
        spec_statement_is_chirho(r, sql, seq![]),
{
    let st = SqlStatementChirho { sql_chirho: sql, params_chirho: Vec::new() };
    assert(spec_params_view_chirho(st.params_chirho@) =~= seq![]);
    st
}

/// The statement `sql` with the parameters that name one chapter.
fn chapter_statement_chirho(sql: &'static str, module: &str, book: &str, chapter: i32) -> (r:
    SqlStatementChirho)
    ensures
        spec_statement_is_chirho(r, sql, spec_chapter_key_chirho(module@, book@, chapter as int)),
{
    let st = SqlStatementChirho {
        sql_chirho: sql,
        params_chirho: vec![
            text_param_chirho(module),
            text_param_chirho(book),
            SqlParamChirho::IntegerChirho(chapter as i64),
        ],
    };
    assert(spec_params_view_chirho(st.params_chirho@) =~= spec_chapter_key_chirho(
        module@,
        book@,
        chapter as int,
    ));
    st
}

/// The statement `sql` with the parameters that name one verse, then
/// `extra` when there is one.
fn verse_statement_chirho(
    sql: &'static str,
    module: &str,
    book: &str,
    chapter: i32,
    verse: i32,
    extra: Option<SqlParamChirho>,
) -> (r: SqlStatementChirho)
    ensures
        spec_statement_is_chirho(
            r,
            sql,
            match extra {
                Some(p) => spec_verse_key_chirho(module@, book@, chapter as int, verse as int).push(
                    spec_param_view_chirho(p),
                ),
                None => spec_verse_key_chirho(module@, book@, chapter as int, verse as int),
            },
        ),
{
    let mut params = vec![
        text_param_chirho(module),
        text_param_chirho(book),
        SqlParamChirho::IntegerChirho(chapter as i64),
        SqlParamChirho::IntegerChirho(verse as i64),
    ];
    assert(spec_params_view_chirho(params@) =~= spec_verse_key_chirho(
        module@,
        book@,
        chapter as int,
        verse as int,
    ));
    match extra {
        Some(p) => {
            let ghost before = params@;
            params.push(p);
            assert(spec_params_view_chirho(params@) =~= spec_params_view_chirho(before).push(
                spec_param_view_chirho(p),
            ));
        },
        None => {},
    }
    SqlStatementChirho { sql_chirho: sql, params_chirho: params }
}

/// Runs one statement; an SQLite error becomes a `DbErrorChirho`.
fn run_chirho(conn: &rusqlite::Connection, st: &SqlStatementChirho) -> (r: Result<
    (),
    DbErrorChirho,
>) {
    match execute_chirho(conn, st.sql_chirho, &st.params_chirho) {
        Ok(_) => Ok(()),
        Err(e) => Err(db_error_chirho(e)),
    }
}

/// Runs one query; an SQLite error becomes a `DbErrorChirho`.
fn rows_chirho(conn: &rusqlite::Connection, st: &SqlStatementChirho, ncols: usize) -> (r: Result<
    Vec<Vec<SqlValueChirho>>,
    DbErrorChirho,
>)
    ensures
        r matches Ok(rows) ==> forall|i: int| 0 <= i < rows.len() ==> #[trigger] rows[i].len() == ncols,
{
    match query_chirho(conn, st.sql_chirho, &st.params_chirho, ncols) {
        Ok(rows) => Ok(rows),
        Err(e) => Err(db_error_chirho(e)),
    }
}

/// The rows of a query, or none when it fails (for the callers that treat a
/// failed lookup as "not found").
fn rows_or_empty_chirho(conn: &rusqlite::Connection, st: &SqlStatementChirho, ncols: usize) -> (r:
    Vec<Vec<SqlValueChirho>>)
    ensures
        forall|i: int| 0 <= i < r.len() ==> #[trigger] r[i].len() == ncols,
{
    match query_chirho(conn, st.sql_chirho, &st.params_chirho, ncols) {
        Ok(rows) => rows,
        Err(_) => Vec::new(),
    }
}

// ---------------------------------------------------------------------------
// The statements of each operation
// ---------------------------------------------------------------------------

/// The statement `sql` with one integer parameter.
fn id_statement_chirho(sql: &'static str, id: i64) -> (r: SqlStatementChirho)
    ensures
        spec_statement_is_chirho(r, sql, seq![SqlParamViewChirho::IntegerChirho(id as int)]),
{
    let st = SqlStatementChirho { sql_chirho: sql, params_chirho: vec![SqlParamChirho::IntegerChirho(id)] };
    assert(spec_params_view_chirho(st.params_chirho@) =~= seq![SqlParamViewChirho::IntegerChirho(id as int)]);
    st
}

/// The statement that `get_highlights_chirho` runs: `GET_HIGHLIGHTS_SQL_CHIRHO` with the chapter's module, book and number.
pub fn get_highlights_statement_chirho(module: &str, book: &str, chapter: i32) -> (r: SqlStatementChirho)
    ensures
        spec_statement_is_chirho(r, GET_HIGHLIGHTS_SQL_CHIRHO, spec_chapter_key_chirho(module@, book@, chapter as int)),
{
    chapter_statement_chirho(GET_HIGHLIGHTS_SQL_CHIRHO, module, book, chapter)
}

/// The statement that `get_highlights_with_colors_chirho` runs: `GET_HIGHLIGHTS_WITH_COLORS_SQL_CHIRHO` with the chapter's module, book and number.
pub fn get_highlights_with_colors_statement_chirho(module: &str, book: &str, chapter: i32) -> (r: SqlStatementChirho)
    ensures
        spec_statement_is_chirho(r, GET_HIGHLIGHTS_WITH_COLORS_SQL_CHIRHO, spec_chapter_key_chirho(module@, book@, chapter as int)),
{
    chapter_statement_chirho(GET_HIGHLIGHTS_WITH_COLORS_SQL_CHIRHO, module, book, chapter)
}

/// The statement that `get_verses_with_notes_chirho` runs: `GET_VERSES_WITH_NOTES_SQL_CHIRHO` with the chapter's module, book and number.
pub fn get_verses_with_notes_statement_chirho(module: &str, book: &str, chapter: i32) -> (r: SqlStatementChirho)
    ensures
        spec_statement_is_chirho(r, GET_VERSES_WITH_NOTES_SQL_CHIRHO, spec_chapter_key_chirho(module@, book@, chapter as int)),
{
    chapter_statement_chirho(GET_VERSES_WITH_NOTES_SQL_CHIRHO, module, book, chapter)
}

/// The statement that `add_reading_history_chirho` runs: `ADD_READING_HISTORY_SQL_CHIRHO` with the chapter's module, book and number.
pub fn add_reading_history_statement_chirho(module: &str, book: &str, chapter: i32) -> (r: SqlStatementChirho)
    ensures
        spec_statement_is_chirho(r, ADD_READING_HISTORY_SQL_CHIRHO, spec_chapter_key_chirho(module@, book@, chapter as int)),
{
    chapter_statement_chirho(ADD_READING_HISTORY_SQL_CHIRHO, module, book, chapter)
}

/// The statement that `highlight_exists_chirho` runs: `HIGHLIGHT_EXISTS_SQL_CHIRHO` with the verse's module, book, chapter and number.
pub fn highlight_exists_statement_chirho(module: &str, book: &str, chapter: i32, verse: i32) -> (r: SqlStatementChirho)
    ensures
        spec_statement_is_chirho(r, HIGHLIGHT_EXISTS_SQL_CHIRHO, spec_verse_key_chirho(module@, book@, chapter as int, verse as int)),
{
    verse_statement_chirho(HIGHLIGHT_EXISTS_SQL_CHIRHO, module, book, chapter, verse, None)
}

/// The statement that `get_note_chirho` runs: `GET_NOTE_SQL_CHIRHO` with the verse's module, book, chapter and number.
pub fn get_note_statement_chirho(module: &str, book: &str, chapter: i32, verse: i32) -> (r: SqlStatementChirho)
    ensures
        spec_statement_is_chirho(r, GET_NOTE_SQL_CHIRHO, spec_verse_key_chirho(module@, book@, chapter as int, verse as int)),
{
    verse_statement_chirho(GET_NOTE_SQL_CHIRHO, module, book, chapter, verse, None)
}

/// The statement that `delete_note_chirho` runs: `DELETE_NOTE_SQL_CHIRHO` with the verse's module, book, chapter and number.
pub fn delete_note_statement_chirho(module: &str, book: &str, chapter: i32, verse: i32) -> (r: SqlStatementChirho)
    ensures
        spec_statement_is_chirho(r, DELETE_NOTE_SQL_CHIRHO, spec_verse_key_chirho(module@, book@, chapter as int, verse as int)),
{
    verse_statement_chirho(DELETE_NOTE_SQL_CHIRHO, module, book, chapter, verse, None)
}

/// The statement that `is_bookmarked_chirho` runs: `IS_BOOKMARKED_SQL_CHIRHO` with the verse's module, book, chapter and number.
pub fn is_bookmarked_statement_chirho(module: &str, book: &str, chapter: i32, verse: i32) -> (r: SqlStatementChirho)
    ensures
        spec_statement_is_chirho(r, IS_BOOKMARKED_SQL_CHIRHO, spec_verse_key_chirho(module@, book@, chapter as int, verse as int)),
{
    verse_statement_chirho(IS_BOOKMARKED_SQL_CHIRHO, module, book, chapter, verse, None)
}

/// The statement that `get_bookmark_id_chirho` runs: `GET_BOOKMARK_ID_SQL_CHIRHO` with the verse's module, book, chapter and number.
pub fn get_bookmark_id_statement_chirho(module: &str, book: &str, chapter: i32, verse: i32) -> (r: SqlStatementChirho)
    ensures
        spec_statement_is_chirho(r, GET_BOOKMARK_ID_SQL_CHIRHO, spec_verse_key_chirho(module@, book@, chapter as int, verse as int)),
{
    verse_statement_chirho(GET_BOOKMARK_ID_SQL_CHIRHO, module, book, chapter, verse, None)
}

/// The statement that toggles a highlight that `exists` says is there or not: the delete when it is there, the insert otherwise, with the verse's module, book, chapter and number.
pub fn toggle_highlight_statement_chirho(module: &str, book: &str, chapter: i32, verse: i32, exists: bool) -> (r: SqlStatementChirho)
    ensures
        spec_statement_is_chirho(r, if exists { TOGGLE_HIGHLIGHT_GIVEN_SQL_1_CHIRHO } else { TOGGLE_HIGHLIGHT_GIVEN_SQL_2_CHIRHO }, spec_verse_key_chirho(module@, book@, chapter as int, verse as int)),
{
    let sql = if exists {
        TOGGLE_HIGHLIGHT_GIVEN_SQL_1_CHIRHO
    } else {
        TOGGLE_HIGHLIGHT_GIVEN_SQL_2_CHIRHO
    };
    verse_statement_chirho(sql, module, book, chapter, verse, None)
}

/// The statement that `add_highlight_with_color_chirho` runs: the verse's module, book, chapter and number, then the colour.
pub fn add_highlight_with_color_statement_chirho(module: &str, book: &str, chapter: i32, verse: i32, color: &str) -> (r: SqlStatementChirho)
    ensures
        spec_statement_is_chirho(r, ADD_HIGHLIGHT_WITH_COLOR_SQL_CHIRHO, spec_verse_key_chirho(module@, book@, chapter as int, verse as int).push(spec_text_param_chirho(color@))),
{
    verse_statement_chirho(ADD_HIGHLIGHT_WITH_COLOR_SQL_CHIRHO, module, book, chapter, verse, Some(text_param_chirho(color)))
}

/// The statement that `save_note_chirho` runs: the verse's module, book, chapter and number, then the content.
pub fn save_note_statement_chirho(module: &str, book: &str, chapter: i32, verse: i32, content: &str) -> (r: SqlStatementChirho)
    ensures
        spec_statement_is_chirho(r, SAVE_NOTE_SQL_CHIRHO, spec_verse_key_chirho(module@, book@, chapter as int, verse as int).push(spec_text_param_chirho(content@))),
{
    verse_statement_chirho(SAVE_NOTE_SQL_CHIRHO, module, book, chapter, verse, Some(text_param_chirho(content)))
}

/// The statement that `add_bookmark_chirho` runs: the verse's module, book, chapter and number, then the label (NULL when there is none).
pub fn add_bookmark_statement_chirho(module: &str, book: &str, chapter: i32, verse: i32, label: Option<&str>) -> (r: SqlStatementChirho)
    ensures
        spec_statement_is_chirho(r, ADD_BOOKMARK_SQL_CHIRHO, spec_verse_key_chirho(module@, book@, chapter as int, verse as int).push(spec_opt_text_param_chirho(spec_opt_str_chirho(label)))),
{
    verse_statement_chirho(ADD_BOOKMARK_SQL_CHIRHO, module, book, chapter, verse, Some(opt_text_param_chirho(label)))
}

/// The statement that `search_notes_chirho` runs: `SEARCH_NOTES_SQL_CHIRHO` with the `LIKE` pattern of `query`.
pub fn search_notes_statement_chirho(query: &str) -> (r: SqlStatementChirho)
    ensures
        spec_statement_is_chirho(r, SEARCH_NOTES_SQL_CHIRHO, seq![spec_text_param_chirho(spec_like_pattern_chirho(query@))]),
{
    let st = SqlStatementChirho {
        sql_chirho: SEARCH_NOTES_SQL_CHIRHO,
        params_chirho: vec![SqlParamChirho::TextChirho(like_pattern_chirho(query))],
    };
    assert(spec_params_view_chirho(st.params_chirho@) =~= seq![spec_text_param_chirho(spec_like_pattern_chirho(query@))]);
    st
}

/// The statement that `search_journal_entries_chirho` runs: `SEARCH_JOURNAL_ENTRIES_SQL_CHIRHO` with the `LIKE` pattern of `query`.
pub fn search_journal_entries_statement_chirho(query: &str) -> (r: SqlStatementChirho)
    ensures
        spec_statement_is_chirho(r, SEARCH_JOURNAL_ENTRIES_SQL_CHIRHO, seq![spec_text_param_chirho(spec_like_pattern_chirho(query@))]),
{
    let st = SqlStatementChirho {
        sql_chirho: SEARCH_JOURNAL_ENTRIES_SQL_CHIRHO,
        params_chirho: vec![SqlParamChirho::TextChirho(like_pattern_chirho(query))],
    };
    assert(spec_params_view_chirho(st.params_chirho@) =~= seq![spec_text_param_chirho(spec_like_pattern_chirho(query@))]);
    st
}

/// The statement that `set_setting_chirho` runs: the key, then the value.
pub fn set_setting_statement_chirho(key: &str, value: &str) -> (r: SqlStatementChirho)
    ensures
        spec_statement_is_chirho(r, SET_SETTING_SQL_CHIRHO, seq![spec_text_param_chirho(key@), spec_text_param_chirho(value@)]),
{
    let st = SqlStatementChirho {
        sql_chirho: SET_SETTING_SQL_CHIRHO,
        params_chirho: vec![text_param_chirho(key), text_param_chirho(value)],
    };
    assert(spec_params_view_chirho(st.params_chirho@) =~= seq![spec_text_param_chirho(key@), spec_text_param_chirho(value@)]);
    st
}

/// The statement that `get_setting_chirho` runs: the key.
pub fn get_setting_statement_chirho(key: &str) -> (r: SqlStatementChirho)
    ensures
        spec_statement_is_chirho(r, GET_SETTING_SQL_CHIRHO, seq![spec_text_param_chirho(key@)]),
{
    let st = SqlStatementChirho { sql_chirho: GET_SETTING_SQL_CHIRHO, params_chirho: vec![text_param_chirho(key)] };
    assert(spec_params_view_chirho(st.params_chirho@) =~= seq![spec_text_param_chirho(key@)]);
    st
}

/// The statement that `remove_bookmark_chirho` runs: `REMOVE_BOOKMARK_SQL_CHIRHO` with the id.
pub fn remove_bookmark_statement_chirho(id: i64) -> (r: SqlStatementChirho)
    ensures
        spec_statement_is_chirho(r, REMOVE_BOOKMARK_SQL_CHIRHO, seq![SqlParamViewChirho::IntegerChirho(id as int)]),
{
    id_statement_chirho(REMOVE_BOOKMARK_SQL_CHIRHO, id)
}

/// The statement that `delete_journal_entry_chirho` runs: `DELETE_JOURNAL_ENTRY_SQL_CHIRHO` with the id.
pub fn delete_journal_entry_statement_chirho(id: i64) -> (r: SqlStatementChirho)
    ensures
        spec_statement_is_chirho(r, DELETE_JOURNAL_ENTRY_SQL_CHIRHO, seq![SqlParamViewChirho::IntegerChirho(id as int)]),
{
    id_statement_chirho(DELETE_JOURNAL_ENTRY_SQL_CHIRHO, id)
}

/// The statement that `get_journal_entry_chirho` runs: `GET_JOURNAL_ENTRY_SQL_CHIRHO` with the id.
pub fn get_journal_entry_statement_chirho(id: i64) -> (r: SqlStatementChirho)
    ensures
        spec_statement_is_chirho(r, GET_JOURNAL_ENTRY_SQL_CHIRHO, seq![SqlParamViewChirho::IntegerChirho(id as int)]),
{
    id_statement_chirho(GET_JOURNAL_ENTRY_SQL_CHIRHO, id)
}

/// The statement that `mark_prayer_answered_chirho` runs: `MARK_PRAYER_ANSWERED_SQL_CHIRHO` with the id.
pub fn mark_prayer_answered_statement_chirho(id: i64) -> (r: SqlStatementChirho)
    ensures
        spec_statement_is_chirho(r, MARK_PRAYER_ANSWERED_SQL_CHIRHO, seq![SqlParamViewChirho::IntegerChirho(id as int)]),
{
    id_statement_chirho(MARK_PRAYER_ANSWERED_SQL_CHIRHO, id)
}

/// The statement that `delete_prayer_request_chirho` runs: `DELETE_PRAYER_REQUEST_SQL_CHIRHO` with the id.
pub fn delete_prayer_request_statement_chirho(id: i64) -> (r: SqlStatementChirho)
    ensures
        spec_statement_is_chirho(r, DELETE_PRAYER_REQUEST_SQL_CHIRHO, seq![SqlParamViewChirho::IntegerChirho(id as int)]),
{
    id_statement_chirho(DELETE_PRAYER_REQUEST_SQL_CHIRHO, id)
}

/// The statement that `get_recent_history_chirho` runs: the limit.
pub fn get_recent_history_statement_chirho(limit: i64) -> (r: SqlStatementChirho)
    ensures
        spec_statement_is_chirho(r, GET_RECENT_HISTORY_SQL_CHIRHO, seq![SqlParamViewChirho::IntegerChirho(limit as int)]),
{
    id_statement_chirho(GET_RECENT_HISTORY_SQL_CHIRHO, limit)
}

/// The statement that `update_bookmark_label_chirho` runs: the label, then the id.
pub fn update_bookmark_label_statement_chirho(id: i64, label: &str) -> (r: SqlStatementChirho)
    ensures
        spec_statement_is_chirho(r, UPDATE_BOOKMARK_LABEL_SQL_CHIRHO, seq![spec_text_param_chirho(label@), SqlParamViewChirho::IntegerChirho(id as int)]),
{
    let st = SqlStatementChirho {
        sql_chirho: UPDATE_BOOKMARK_LABEL_SQL_CHIRHO,
        params_chirho: vec![text_param_chirho(label), SqlParamChirho::IntegerChirho(id)],
    };
    assert(spec_params_view_chirho(st.params_chirho@) =~= seq![spec_text_param_chirho(label@), SqlParamViewChirho::IntegerChirho(id as int)]);
    st
}

/// The statement that `record_reading_session_chirho` runs: the date, the seconds, then the chapters.
pub fn record_reading_session_statement_chirho(date: &str, duration_seconds: i64, chapters_read: i32) -> (r: SqlStatementChirho)
    ensures
        spec_statement_is_chirho(r, RECORD_READING_SESSION_SQL_CHIRHO, seq![spec_text_param_chirho(date@), SqlParamViewChirho::IntegerChirho(duration_seconds as int), SqlParamViewChirho::IntegerChirho(chapters_read as int)]),
{
    let st = SqlStatementChirho {
        sql_chirho: RECORD_READING_SESSION_SQL_CHIRHO,
        params_chirho: vec![
            text_param_chirho(date),
            SqlParamChirho::IntegerChirho(duration_seconds),
            SqlParamChirho::IntegerChirho(chapters_read as i64),
        ],
    };
    assert(spec_params_view_chirho(st.params_chirho@) =~= seq![spec_text_param_chirho(date@), SqlParamViewChirho::IntegerChirho(duration_seconds as int), SqlParamViewChirho::IntegerChirho(chapters_read as int)]);
    st
}

/// The statement that `create_journal_entry_chirho` runs: title, content, verse reference and tags (NULL where there are none).
pub fn create_journal_entry_statement_chirho(title: &str, content: &str, verse_ref: Option<&str>, tags: Option<&str>) -> (r: SqlStatementChirho)
    ensures
        spec_statement_is_chirho(r, CREATE_JOURNAL_ENTRY_SQL_CHIRHO, seq![spec_text_param_chirho(title@), spec_text_param_chirho(content@), spec_opt_text_param_chirho(spec_opt_str_chirho(verse_ref)), spec_opt_text_param_chirho(spec_opt_str_chirho(tags))]),
{
    let st = SqlStatementChirho {
        sql_chirho: CREATE_JOURNAL_ENTRY_SQL_CHIRHO,
        params_chirho: vec![
            text_param_chirho(title),
            text_param_chirho(content),
            opt_text_param_chirho(verse_ref),
            opt_text_param_chirho(tags),
        ],
    };
    assert(spec_params_view_chirho(st.params_chirho@) =~= seq![spec_text_param_chirho(title@), spec_text_param_chirho(content@), spec_opt_text_param_chirho(spec_opt_str_chirho(verse_ref)), spec_opt_text_param_chirho(spec_opt_str_chirho(tags))]);
    st
}

/// The statement that `update_journal_entry_chirho` runs: title, content, verse reference, tags, then the id.
pub fn update_journal_entry_statement_chirho(id: i64, title: &str, content: &str, verse_ref: Option<&str>, tags: Option<&str>) -> (r: SqlStatementChirho)
    ensures
        spec_statement_is_chirho(r, UPDATE_JOURNAL_ENTRY_SQL_CHIRHO, seq![spec_text_param_chirho(title@), spec_text_param_chirho(content@), spec_opt_text_param_chirho(spec_opt_str_chirho(verse_ref)), spec_opt_text_param_chirho(spec_opt_str_chirho(tags)), SqlParamViewChirho::IntegerChirho(id as int)]),
{
    let st = SqlStatementChirho {
        sql_chirho: UPDATE_JOURNAL_ENTRY_SQL_CHIRHO,
        params_chirho: vec![
            text_param_chirho(title),
            text_param_chirho(content),
            opt_text_param_chirho(verse_ref),
            opt_text_param_chirho(tags),
            SqlParamChirho::IntegerChirho(id),
        ],
    };
    assert(spec_params_view_chirho(st.params_chirho@) =~= seq![spec_text_param_chirho(title@), spec_text_param_chirho(content@), spec_opt_text_param_chirho(spec_opt_str_chirho(verse_ref)), spec_opt_text_param_chirho(spec_opt_str_chirho(tags)), SqlParamViewChirho::IntegerChirho(id as int)]);
    st
}

/// The statement that `create_prayer_request_chirho` runs: title, description, verse reference and category (NULL where there are none).
pub fn create_prayer_request_statement_chirho(title: &str, description: Option<&str>, verse_ref: Option<&str>, category: Option<&str>) -> (r: SqlStatementChirho)
    ensures
        spec_statement_is_chirho(r, CREATE_PRAYER_REQUEST_SQL_CHIRHO, seq![spec_text_param_chirho(title@), spec_opt_text_param_chirho(spec_opt_str_chirho(description)), spec_opt_text_param_chirho(spec_opt_str_chirho(verse_ref)), spec_opt_text_param_chirho(spec_opt_str_chirho(category))]),
{
    let st = SqlStatementChirho {
        sql_chirho: CREATE_PRAYER_REQUEST_SQL_CHIRHO,
        params_chirho: vec![
            text_param_chirho(title),
            opt_text_param_chirho(description),
            opt_text_param_chirho(verse_ref),
            opt_text_param_chirho(category),
        ],
    };
    assert(spec_params_view_chirho(st.params_chirho@) =~= seq![spec_text_param_chirho(title@), spec_opt_text_param_chirho(spec_opt_str_chirho(description)), spec_opt_text_param_chirho(spec_opt_str_chirho(verse_ref)), spec_opt_text_param_chirho(spec_opt_str_chirho(category))]);
    st
}

// ---------------------------------------------------------------------------
// Schema
// ---------------------------------------------------------------------------

/// The tables and indexes of the study database, as SQL statements.
pub const SCHEMA_CHIRHO: &'static str = "
    CREATE TABLE IF NOT EXISTS highlights_chirho (
        id_chirho INTEGER PRIMARY KEY AUTOINCREMENT,
        module_chirho TEXT NOT NULL,
        book_chirho TEXT NOT NULL,
        chapter_chirho INTEGER NOT NULL,
        verse_chirho INTEGER NOT NULL,
        color_chirho TEXT NOT NULL DEFAULT 'yellow',
        created_at_chirho DATETIME DEFAULT CURRENT_TIMESTAMP,
        UNIQUE(module_chirho, book_chirho, chapter_chirho, verse_chirho)
    );
    CREATE TABLE IF NOT EXISTS bookmarks_chirho (
        id_chirho INTEGER PRIMARY KEY AUTOINCREMENT,
        module_chirho TEXT NOT NULL,
        book_chirho TEXT NOT NULL,
        chapter_chirho INTEGER NOT NULL,
        verse_chirho INTEGER NOT NULL,
        verse_end_chirho INTEGER,
        label_chirho TEXT,
        folder_id_chirho INTEGER,
        created_at_chirho DATETIME DEFAULT CURRENT_TIMESTAMP,
        updated_at_chirho DATETIME DEFAULT CURRENT_TIMESTAMP
    );
    CREATE TABLE IF NOT EXISTS notes_chirho (
        id_chirho INTEGER PRIMARY KEY AUTOINCREMENT,
        module_chirho TEXT NOT NULL,
        book_chirho TEXT NOT NULL,
        chapter_chirho INTEGER NOT NULL,
        verse_chirho INTEGER NOT NULL,
        content_chirho TEXT NOT NULL,
        created_at_chirho DATETIME DEFAULT CURRENT_TIMESTAMP,
        updated_at_chirho DATETIME DEFAULT CURRENT_TIMESTAMP,
        UNIQUE(module_chirho, book_chirho, chapter_chirho, verse_chirho)
    );
    CREATE TABLE IF NOT EXISTS settings_chirho (
        key_chirho TEXT PRIMARY KEY,
        value_chirho TEXT NOT NULL
    );
    CREATE TABLE IF NOT EXISTS reading_history_chirho (
        id_chirho INTEGER PRIMARY KEY AUTOINCREMENT,
        module_chirho TEXT NOT NULL,
        book_chirho TEXT NOT NULL,
        chapter_chirho INTEGER NOT NULL,
        timestamp_chirho DATETIME DEFAULT CURRENT_TIMESTAMP
    );
    CREATE TABLE IF NOT EXISTS reading_sessions_chirho (
        id_chirho INTEGER PRIMARY KEY AUTOINCREMENT,
        date_chirho DATE NOT NULL,
        duration_seconds_chirho INTEGER NOT NULL DEFAULT 0,
        chapters_read_chirho INTEGER NOT NULL DEFAULT 0,
        UNIQUE(date_chirho)
    );
    CREATE TABLE IF NOT EXISTS journal_entries_chirho (
        id_chirho INTEGER PRIMARY KEY AUTOINCREMENT,
        title_chirho TEXT NOT NULL,
        content_chirho TEXT NOT NULL,
        verse_ref_chirho TEXT,
        tags_chirho TEXT,
        created_at_chirho DATETIME DEFAULT CURRENT_TIMESTAMP,
        updated_at_chirho DATETIME DEFAULT CURRENT_TIMESTAMP
    );
    CREATE TABLE IF NOT EXISTS prayer_requests_chirho (
        id_chirho INTEGER PRIMARY KEY AUTOINCREMENT,
        title_chirho TEXT NOT NULL,
        description_chirho TEXT,
        verse_ref_chirho TEXT,
        category_chirho TEXT,
        is_answered_chirho INTEGER DEFAULT 0,
        answered_at_chirho DATETIME,
        created_at_chirho DATETIME DEFAULT CURRENT_TIMESTAMP
    );
    CREATE TABLE IF NOT EXISTS reading_plans_chirho (
        id_chirho INTEGER PRIMARY KEY AUTOINCREMENT,
        name_chirho TEXT NOT NULL,
        description_chirho TEXT,
        plan_type_chirho TEXT NOT NULL,
        total_days_chirho INTEGER NOT NULL,
        current_day_chirho INTEGER NOT NULL DEFAULT 1,
        start_date_chirho DATE,
        is_active_chirho INTEGER DEFAULT 0,
        created_at_chirho DATETIME DEFAULT CURRENT_TIMESTAMP
    );
    CREATE TABLE IF NOT EXISTS reading_plan_days_chirho (
        id_chirho INTEGER PRIMARY KEY AUTOINCREMENT,
        plan_id_chirho INTEGER NOT NULL,
        day_number_chirho INTEGER NOT NULL,
        readings_chirho TEXT NOT NULL,
        is_completed_chirho INTEGER DEFAULT 0,
        completed_at_chirho DATETIME,
        FOREIGN KEY (plan_id_chirho) REFERENCES reading_plans_chirho(id_chirho)
    );
    CREATE INDEX IF NOT EXISTS idx_journal_created_chirho
        ON journal_entries_chirho(created_at_chirho);
    CREATE INDEX IF NOT EXISTS idx_highlights_location_chirho
        ON highlights_chirho(module_chirho, book_chirho, chapter_chirho);
    CREATE INDEX IF NOT EXISTS idx_notes_location_chirho
        ON notes_chirho(module_chirho, book_chirho, chapter_chirho);
    CREATE INDEX IF NOT EXISTS idx_bookmarks_location_chirho
        ON bookmarks_chirho(module_chirho, book_chirho, chapter_chirho);
    ";

/// The SQL that creates the tables and indexes (`SCHEMA_CHIRHO`).
fn schema_chirho() -> (r: &'static str)
    ensures
        r@ == SCHEMA_CHIRHO@,
{
    SCHEMA_CHIRHO
}

/// Opens the database at `db_path` and creates any missing tables and
/// indexes. The directory that holds the file must exist.
pub fn init_database_chirho(db_path: &str) -> (r: Result<rusqlite::Connection, DbErrorChirho>) {
    let conn = match open_connection_chirho(db_path) {
        Ok(c) => c,
        Err(e) => return Err(db_error_chirho(e)),
    };
    match execute_batch_chirho(&conn, schema_chirho()) {
        Ok(()) => Ok(conn),
        Err(e) => Err(db_error_chirho(e)),
    }
}

// ---------------------------------------------------------------------------
// Highlights
// ---------------------------------------------------------------------------

/// The SQL that `get_highlights_chirho` runs.
pub const GET_HIGHLIGHTS_SQL_CHIRHO: &'static str = "SELECT verse_chirho FROM highlights_chirho
         WHERE module_chirho = ?1 AND book_chirho = ?2 AND chapter_chirho = ?3";

/// The verse numbers highlighted in a chapter.
pub fn get_highlights_chirho(
    conn: &rusqlite::Connection,
    module: &str,
    book: &str,
    chapter: i32,
) -> (r: Result<HashSet<i32>, DbErrorChirho>)
    ensures
        r matches Ok(v) ==> exists|rows: Seq<Vec<SqlValueChirho>>| v@ == #[trigger] spec_verse_set_chirho(rows),
{
    let rows = rows_chirho(conn, &get_highlights_statement_chirho(module, book, chapter), 1)?;
    Ok(verse_set_from_rows_chirho(&rows))
}

/// The SQL that `highlight_exists_chirho` runs.
pub const HIGHLIGHT_EXISTS_SQL_CHIRHO: &'static str = "SELECT 1 FROM highlights_chirho
         WHERE module_chirho = ?1 AND book_chirho = ?2 AND chapter_chirho = ?3 AND verse_chirho = ?4";

/// Whether a verse is highlighted; a failed lookup counts as "no".
pub fn highlight_exists_chirho(
    conn: &rusqlite::Connection,
    module: &str,
    book: &str,
    chapter: i32,
    verse: i32,
) -> (r: bool)
    ensures
        exists|rows: Seq<Vec<SqlValueChirho>>| r == #[trigger] spec_has_rows_chirho(rows),
{
    let rows = rows_or_empty_chirho(conn, &highlight_exists_statement_chirho(module, book, chapter, verse), 1);
    has_rows_chirho(&rows)
}

/// The SQL that `toggle_highlight_given_chirho` runs.
pub const TOGGLE_HIGHLIGHT_GIVEN_SQL_1_CHIRHO: &'static str = "DELETE FROM highlights_chirho
             WHERE module_chirho = ?1 AND book_chirho = ?2 AND chapter_chirho = ?3 AND verse_chirho = ?4";

/// The SQL that `toggle_highlight_given_chirho` runs.
pub const TOGGLE_HIGHLIGHT_GIVEN_SQL_2_CHIRHO: &'static str = "INSERT INTO highlights_chirho (module_chirho, book_chirho, chapter_chirho, verse_chirho)
             VALUES (?1, ?2, ?3, ?4)";

/// Toggles a highlight that `exists` says is there or not: removes it if it
/// exists, adds it otherwise. Answers whether the verse is highlighted now.
pub fn toggle_highlight_given_chirho(
    conn: &rusqlite::Connection,
    module: &str,
    book: &str,
    chapter: i32,
    verse: i32,
    exists: bool,
) -> (r: Result<bool, DbErrorChirho>)
    ensures
        r matches Ok(now) ==> now == !exists,
{
    run_chirho(conn, &toggle_highlight_statement_chirho(module, book, chapter, verse, exists))?;
    Ok(!exists)
}

/// Toggles the highlight of a verse and answers whether it is highlighted
/// now.
pub fn toggle_highlight_chirho(
    conn: &rusqlite::Connection,
    module: &str,
    book: &str,
    chapter: i32,
    verse: i32,
) -> (r: Result<bool, DbErrorChirho>)
    ensures
        r matches Ok(now) ==> exists|rows: Seq<Vec<SqlValueChirho>>| now == !#[trigger] spec_has_rows_chirho(rows),
{
    let exists = highlight_exists_chirho(conn, module, book, chapter, verse);
    toggle_highlight_given_chirho(conn, module, book, chapter, verse, exists)
}

/// The SQL that `get_all_highlights_chirho` runs.
pub const GET_ALL_HIGHLIGHTS_SQL_CHIRHO: &'static str = "SELECT id_chirho, module_chirho, book_chirho, chapter_chirho, verse_chirho, color_chirho
         FROM highlights_chirho ORDER BY created_at_chirho DESC";

/// All highlights, newest first.
pub fn get_all_highlights_chirho(conn: &rusqlite::Connection) -> (r: Result<
    Vec<HighlightChirho>,
    DbErrorChirho,
>)
    ensures
        r matches Ok(v) ==> exists|rows: Seq<Vec<SqlValueChirho>>| v@ == #[trigger] rows.filter_map(spec_highlight_row_fn_chirho()),
{
    let rows = rows_chirho(conn, &plain_statement_chirho(GET_ALL_HIGHLIGHTS_SQL_CHIRHO), 6)?;
    Ok(decode_highlight_rows_chirho(&rows))
}

/// The SQL that `get_highlights_with_colors_chirho` runs.
pub const GET_HIGHLIGHTS_WITH_COLORS_SQL_CHIRHO: &'static str = "SELECT verse_chirho, color_chirho FROM highlights_chirho
         WHERE module_chirho = ?1 AND book_chirho = ?2 AND chapter_chirho = ?3";

/// The highlighted verses of a chapter with their colours.
pub fn get_highlights_with_colors_chirho(
    conn: &rusqlite::Connection,
    module: &str,
    book: &str,
    chapter: i32,
) -> (r: Result<Vec<HighlightInfoChirho>, DbErrorChirho>)
    ensures
        r matches Ok(v) ==> exists|rows: Seq<Vec<SqlValueChirho>>| v@ == #[trigger] rows.filter_map(spec_highlight_info_row_fn_chirho()),
{
    let rows = rows_chirho(conn, &get_highlights_with_colors_statement_chirho(module, book, chapter), 2)?;
    Ok(decode_highlight_info_rows_chirho(&rows))
}

/// The SQL that `add_highlight_with_color_chirho` runs.
pub const ADD_HIGHLIGHT_WITH_COLOR_SQL_CHIRHO: &'static str = "INSERT OR REPLACE INTO highlights_chirho (module_chirho, book_chirho, chapter_chirho, verse_chirho, color_chirho)
         VALUES (?1, ?2, ?3, ?4, ?5)";

/// Highlights a verse in `color`, replacing any earlier highlight of it.
pub fn add_highlight_with_color_chirho(
    conn: &rusqlite::Connection,
    module: &str,
    book: &str,
    chapter: i32,
    verse: i32,
    color: &str,
) -> (r: Result<(), DbErrorChirho>) {
    run_chirho(conn, &add_highlight_with_color_statement_chirho(module, book, chapter, verse, color))
}

// ---------------------------------------------------------------------------
// Notes
// ---------------------------------------------------------------------------

/// The SQL that `get_verses_with_notes_chirho` runs.
pub const GET_VERSES_WITH_NOTES_SQL_CHIRHO: &'static str = "SELECT verse_chirho FROM notes_chirho
         WHERE module_chirho = ?1 AND book_chirho = ?2 AND chapter_chirho = ?3";

/// The verse numbers of a chapter that have a note.
pub fn get_verses_with_notes_chirho(
    conn: &rusqlite::Connection,
    module: &str,
    book: &str,
    chapter: i32,
) -> (r: Result<HashSet<i32>, DbErrorChirho>)
    ensures
        r matches Ok(v) ==> exists|rows: Seq<Vec<SqlValueChirho>>| v@ == #[trigger] spec_verse_set_chirho(rows),
{
    let rows = rows_chirho(conn, &get_verses_with_notes_statement_chirho(module, book, chapter), 1)?;
    Ok(verse_set_from_rows_chirho(&rows))
}

/// The SQL that `save_note_chirho` runs.
pub const SAVE_NOTE_SQL_CHIRHO: &'static str = "INSERT INTO notes_chirho (module_chirho, book_chirho, chapter_chirho, verse_chirho, content_chirho)
         VALUES (?1, ?2, ?3, ?4, ?5)
         ON CONFLICT(module_chirho, book_chirho, chapter_chirho, verse_chirho)
         DO UPDATE SET content_chirho = excluded.content_chirho, updated_at_chirho = CURRENT_TIMESTAMP";

/// Saves the note of a verse, replacing its content if it has one, and
/// answers the last inserted rowid.
pub fn save_note_chirho(
    conn: &rusqlite::Connection,
    module: &str,
    book: &str,
    chapter: i32,
    verse: i32,
    content: &str,
) -> (r: Result<i64, DbErrorChirho>) {
    run_chirho(conn, &save_note_statement_chirho(module, book, chapter, verse, content))?;
    Ok(last_insert_rowid_chirho(conn))
}

/// The SQL that `get_note_chirho` runs.
pub const GET_NOTE_SQL_CHIRHO: &'static str = "SELECT id_chirho, module_chirho, book_chirho, chapter_chirho, verse_chirho, content_chirho,
                created_at_chirho, updated_at_chirho
         FROM notes_chirho
         WHERE module_chirho = ?1 AND book_chirho = ?2 AND chapter_chirho = ?3 AND verse_chirho = ?4";

/// The note of a verse, if it has one.
pub fn get_note_chirho(
    conn: &rusqlite::Connection,
    module: &str,
    book: &str,
    chapter: i32,
    verse: i32,
) -> (r: Option<NoteChirho>)
    ensures
        r matches Some(n) ==> exists|row: Vec<SqlValueChirho>| #[trigger] spec_note_of_row_chirho(row) == Some(n),
{
    let rows = rows_or_empty_chirho(conn, &get_note_statement_chirho(module, book, chapter, verse), 8);
    if rows.len() > 0 {
        note_of_row_chirho(&rows[0])
    } else {
        None
    }
}

/// The SQL that `delete_note_chirho` runs.
pub const DELETE_NOTE_SQL_CHIRHO: &'static str = "DELETE FROM notes_chirho
         WHERE module_chirho = ?1 AND book_chirho = ?2 AND chapter_chirho = ?3 AND verse_chirho = ?4";

/// Deletes the note of a verse.
pub fn delete_note_chirho(
    conn: &rusqlite::Connection,
    module: &str,
    book: &str,
    chapter: i32,
    verse: i32,
) -> (r: Result<(), DbErrorChirho>) {
    run_chirho(conn, &delete_note_statement_chirho(module, book, chapter, verse))
}

/// The SQL that `get_all_notes_chirho` runs.
pub const GET_ALL_NOTES_SQL_CHIRHO: &'static str = "SELECT id_chirho, module_chirho, book_chirho, chapter_chirho, verse_chirho, content_chirho,
                created_at_chirho, updated_at_chirho
         FROM notes_chirho ORDER BY updated_at_chirho DESC";

/// All notes, most recently updated first.
pub fn get_all_notes_chirho(conn: &rusqlite::Connection) -> (r: Result<
    Vec<NoteChirho>,
    DbErrorChirho,
>)
    ensures
        r matches Ok(v) ==> exists|rows: Seq<Vec<SqlValueChirho>>| v@ == #[trigger] rows.filter_map(spec_note_row_fn_chirho()),
{
    let rows = rows_chirho(conn, &plain_statement_chirho(GET_ALL_NOTES_SQL_CHIRHO), 8)?;
    Ok(decode_note_rows_chirho(&rows))
}

/// The SQL that `search_notes_chirho` runs.
pub const SEARCH_NOTES_SQL_CHIRHO: &'static str = "SELECT id_chirho, module_chirho, book_chirho, chapter_chirho, verse_chirho, content_chirho,
                created_at_chirho, updated_at_chirho
         FROM notes_chirho
         WHERE content_chirho LIKE ?1
         ORDER BY updated_at_chirho DESC";

/// The notes whose content contains `query` (SQLite's `LIKE`, so ASCII
/// letters match regardless of case), most recently updated first.
pub fn search_notes_chirho(conn: &rusqlite::Connection, query: &str) -> (r: Result<
    Vec<NoteChirho>,
    DbErrorChirho,
>)
    ensures
        r matches Ok(v) ==> exists|rows: Seq<Vec<SqlValueChirho>>| v@ == #[trigger] rows.filter_map(spec_note_row_fn_chirho()),
{
    let rows = rows_chirho(conn, &search_notes_statement_chirho(query), 8)?;
    Ok(decode_note_rows_chirho(&rows))
}

// ---------------------------------------------------------------------------
// Settings and history
// ---------------------------------------------------------------------------

/// The SQL that `set_setting_chirho` runs.
pub const SET_SETTING_SQL_CHIRHO: &'static str = "INSERT OR REPLACE INTO settings_chirho (key_chirho, value_chirho) VALUES (?1, ?2)";

/// Stores a setting, replacing its earlier value.
pub fn set_setting_chirho(conn: &rusqlite::Connection, key: &str, value: &str) -> (r: Result<
    (),
    DbErrorChirho,
>) {
    run_chirho(conn, &set_setting_statement_chirho(key, value))
}

/// The SQL that `get_setting_chirho` runs.
pub const GET_SETTING_SQL_CHIRHO: &'static str = "SELECT value_chirho FROM settings_chirho WHERE key_chirho = ?1";

/// The value of a setting, if it is set.
pub fn get_setting_chirho(conn: &rusqlite::Connection, key: &str) -> (r: Option<String>)
    ensures
        exists|rows: Seq<Vec<SqlValueChirho>>| r == #[trigger] spec_first_text_chirho(rows),
{
    read_text_chirho(conn, &get_setting_statement_chirho(key))
}

/// Runs the lookup `st` and answers the text of the first column of its
/// first row; `None` when there is no row, the column is not text, or the
/// lookup fails.
pub fn read_text_chirho(conn: &rusqlite::Connection, st: &SqlStatementChirho) -> (r: Option<String>)
    ensures
        exists|rows: Seq<Vec<SqlValueChirho>>| r == #[trigger] spec_first_text_chirho(rows),
{
    let rows = rows_or_empty_chirho(conn, st, 1);
    first_text_of_rows_chirho(&rows)
}

/// Runs the statement `st` (see the statement builders of each operation);
/// an SQLite error becomes a `DbErrorChirho`.
pub fn execute_statement_chirho(conn: &rusqlite::Connection, st: &SqlStatementChirho) -> (r: Result<
    (),
    DbErrorChirho,
>) {
    run_chirho(conn, st)
}

/// The SQL that `add_reading_history_chirho` runs.
pub const ADD_READING_HISTORY_SQL_CHIRHO: &'static str = "INSERT INTO reading_history_chirho (module_chirho, book_chirho, chapter_chirho)
         VALUES (?1, ?2, ?3)";

/// Records that a chapter was read.
pub fn add_reading_history_chirho(
    conn: &rusqlite::Connection,
    module: &str,
    book: &str,
    chapter: i32,
) -> (r: Result<(), DbErrorChirho>) {
    run_chirho(conn, &add_reading_history_statement_chirho(module, book, chapter))
}

/// The SQL that `get_recent_history_chirho` runs.
pub const GET_RECENT_HISTORY_SQL_CHIRHO: &'static str = "SELECT id_chirho, book_chirho, chapter_chirho, timestamp_chirho
         FROM reading_history_chirho
         GROUP BY book_chirho, chapter_chirho
         ORDER BY MAX(timestamp_chirho) DESC
         LIMIT ?1";

/// The distinct chapters read, most recent first, at most `limit` of them.
/// A limit beyond the range of SQLite integers is refused, as `rusqlite`
/// refuses to bind it.
pub fn get_recent_history_chirho(conn: &rusqlite::Connection, limit: usize) -> (r: Result<
    Vec<HistoryEntryChirho>,
    DbErrorChirho,
>)
    ensures
        limit > i64::MAX ==> r is Err,
        r matches Ok(v) ==> exists|rows: Seq<Vec<SqlValueChirho>>| v@ == #[trigger] rows.filter_map(spec_history_row_fn_chirho()),
{
    if limit as u128 > 9223372036854775807u128 {
        return Err(DbErrorChirho {
            message_chirho: String::from_str("out of range integral type conversion attempted"),
        });
    }
    let rows = rows_chirho(conn, &get_recent_history_statement_chirho(limit as i64), 4)?;
    Ok(decode_history_rows_chirho(&rows))
}

// ---------------------------------------------------------------------------
// Bookmarks
// ---------------------------------------------------------------------------

/// The SQL that `add_bookmark_chirho` runs.
pub const ADD_BOOKMARK_SQL_CHIRHO: &'static str = "INSERT INTO bookmarks_chirho (module_chirho, book_chirho, chapter_chirho, verse_chirho, label_chirho)
         VALUES (?1, ?2, ?3, ?4, ?5)";

/// Bookmarks a verse with an optional label and answers the new bookmark's
/// id.
pub fn add_bookmark_chirho(
    conn: &rusqlite::Connection,
    module: &str,
    book: &str,
    chapter: i32,
    verse: i32,
    label: Option<&str>,
) -> (r: Result<i64, DbErrorChirho>) {
    run_chirho(conn, &add_bookmark_statement_chirho(module, book, chapter, verse, label))?;
    Ok(last_insert_rowid_chirho(conn))
}

/// The SQL that `remove_bookmark_chirho` runs.
pub const REMOVE_BOOKMARK_SQL_CHIRHO: &'static str = "DELETE FROM bookmarks_chirho WHERE id_chirho = ?1";

/// Removes the bookmark with id `id`.
pub fn remove_bookmark_chirho(conn: &rusqlite::Connection, id: i64) -> (r: Result<
    (),
    DbErrorChirho,
>) {
    run_chirho(conn, &remove_bookmark_statement_chirho(id))
}

/// The SQL that `update_bookmark_label_chirho` runs.
pub const UPDATE_BOOKMARK_LABEL_SQL_CHIRHO: &'static str = "UPDATE bookmarks_chirho SET label_chirho = ?1, updated_at_chirho = CURRENT_TIMESTAMP WHERE id_chirho = ?2";

/// Sets the label of the bookmark with id `id`.
pub fn update_bookmark_label_chirho(conn: &rusqlite::Connection, id: i64, label: &str) -> (r:
    Result<(), DbErrorChirho>) {
    run_chirho(conn, &update_bookmark_label_statement_chirho(id, label))
}

/// The SQL that `get_all_bookmarks_chirho` runs.
pub const GET_ALL_BOOKMARKS_SQL_CHIRHO: &'static str = "SELECT id_chirho, module_chirho, book_chirho, chapter_chirho, verse_chirho, label_chirho
         FROM bookmarks_chirho ORDER BY created_at_chirho DESC";

/// All bookmarks, newest first.
pub fn get_all_bookmarks_chirho(conn: &rusqlite::Connection) -> (r: Result<
    Vec<BookmarkChirho>,
    DbErrorChirho,
>)
    ensures
        r matches Ok(v) ==> exists|rows: Seq<Vec<SqlValueChirho>>| v@ == #[trigger] rows.filter_map(spec_bookmark_row_fn_chirho()),
{
    let rows = rows_chirho(conn, &plain_statement_chirho(GET_ALL_BOOKMARKS_SQL_CHIRHO), 6)?;
    Ok(decode_bookmark_rows_chirho(&rows))
}

/// The SQL that `is_bookmarked_chirho` runs.
pub const IS_BOOKMARKED_SQL_CHIRHO: &'static str = "SELECT 1 FROM bookmarks_chirho
         WHERE module_chirho = ?1 AND book_chirho = ?2 AND chapter_chirho = ?3 AND verse_chirho = ?4";

/// Whether a verse is bookmarked; a failed lookup counts as "no".
pub fn is_bookmarked_chirho(
    conn: &rusqlite::Connection,
    module: &str,
    book: &str,
    chapter: i32,
    verse: i32,
) -> (r: bool)
    ensures
        exists|rows: Seq<Vec<SqlValueChirho>>| r == #[trigger] spec_has_rows_chirho(rows),
{
    let rows = rows_or_empty_chirho(conn, &is_bookmarked_statement_chirho(module, book, chapter, verse), 1);
    has_rows_chirho(&rows)
}

/// The SQL that `get_bookmark_id_chirho` runs.
pub const GET_BOOKMARK_ID_SQL_CHIRHO: &'static str = "SELECT id_chirho FROM bookmarks_chirho
         WHERE module_chirho = ?1 AND book_chirho = ?2 AND chapter_chirho = ?3 AND verse_chirho = ?4";

/// The id of a bookmark of the verse, if it is bookmarked.
pub fn get_bookmark_id_chirho(
    conn: &rusqlite::Connection,
    module: &str,
    book: &str,
    chapter: i32,
    verse: i32,
) -> (r: Option<i64>)
    ensures
        exists|rows: Seq<Vec<SqlValueChirho>>| r == #[trigger] spec_first_i64_chirho(rows),
{
    let rows = rows_or_empty_chirho(conn, &get_bookmark_id_statement_chirho(module, book, chapter, verse), 1);
    first_i64_of_rows_chirho(&rows)
}

// ---------------------------------------------------------------------------
// Reading sessions and statistics
// ---------------------------------------------------------------------------

/// The SQL that `record_reading_session_chirho` runs.
pub const RECORD_READING_SESSION_SQL_CHIRHO: &'static str = "INSERT INTO reading_sessions_chirho (date_chirho, duration_seconds_chirho, chapters_read_chirho)
         VALUES (?1, ?2, ?3)
         ON CONFLICT(date_chirho) DO UPDATE SET
             duration_seconds_chirho = duration_seconds_chirho + excluded.duration_seconds_chirho,
             chapters_read_chirho = chapters_read_chirho + excluded.chapters_read_chirho";

/// Adds a reading session's time and chapters to today's totals.
pub fn record_reading_session_chirho(
    conn: &rusqlite::Connection,
    duration_seconds: i64,
    chapters_read: i32,
) -> (r: Result<(), DbErrorChirho>) {
    let today = local_today_chirho();
    run_chirho(conn, &record_reading_session_statement_chirho(today.as_str(), duration_seconds, chapters_read))
}

/// Reading statistics.
#[derive(Debug)]
pub struct StatisticsChirho {
    pub total_chapters_read_chirho: i32,
    pub unique_chapters_read_chirho: i32,
    pub total_reading_time_seconds_chirho: i64,
    pub current_streak_chirho: i32,
    pub longest_streak_chirho: i32,
    pub highlight_count_chirho: i32,
    pub note_count_chirho: i32,
    pub bookmark_count_chirho: i32,
    pub books_started_chirho: i32,
    pub books_completed_chirho: i32,
}

/// The value of a `COUNT` query, or 0 when it fails.
fn count_chirho(conn: &rusqlite::Connection, sql: &'static str) -> (r: i32)
    ensures
        exists|rows: Seq<Vec<SqlValueChirho>>| r == #[trigger] spec_count_chirho(rows),
{
    let rows = rows_or_empty_chirho(conn, &plain_statement_chirho(sql), 1);
    count_of_rows_chirho(&rows)
}

/// The query of the distinct dates of the reading sessions, newest first.
pub const SESSION_DATES_SQL_CHIRHO: &'static str =
    "SELECT DISTINCT date_chirho FROM reading_sessions_chirho ORDER BY date_chirho DESC";

/// The date a result row of `SESSION_DATES_SQL_CHIRHO` holds: the text of
/// its first column.
pub open spec fn spec_row_date_chirho(row: Vec<SqlValueChirho>) -> Option<String> {
    if row.len() > 0 {
        spec_text_col_chirho(row[0])
    } else {
        None
    }
}

/// The row decoder of session dates.
pub open spec fn spec_row_date_fn_chirho() -> spec_fn(Vec<SqlValueChirho>) -> Option<String> {
    |row: Vec<SqlValueChirho>| spec_row_date_chirho(row)
}

/// The dates of result rows, skipping rows whose first column is not text.
pub open spec fn spec_session_dates_chirho(rows: Seq<Vec<SqlValueChirho>>) -> Seq<String> {
    rows.filter_map(spec_row_date_fn_chirho())
}

/// Whether `r` are the current and longest streaks of `dates` for the given
/// today and yesterday: (0, 0) without dates, else as `reading_streaks_chirho`
/// computes them.
pub open spec fn spec_streaks_of_dates_chirho(
    dates: Seq<String>,
    today: Seq<char>,
    yesterday: Seq<char>,
    r: (i32, i32),
) -> bool {
    if dates.len() == 0 || dates.len() > i32::MAX {
        r == (0i32, 0i32)
    } else {
        &&& r.1 == spec_longest_run_chirho(spec_parsed_days_chirho(dates))
        &&& exists|chain: int|
            spec_current_streak_chirho(dates, today, yesterday, chain) && r.0
                == #[trigger] spec_current_value_chirho(dates, today, yesterday, chain)
    }
}

/// The dates of the session rows, in order (see `spec_session_dates_chirho`).
pub fn session_dates_of_rows_chirho(rows: &Vec<Vec<SqlValueChirho>>) -> (r: Vec<String>)
    ensures
        r@ == spec_session_dates_chirho(rows@),
{
    let mut dates: Vec<String> = Vec::new();
    let mut i: usize = 0;
    while i < rows.len()
        invariant
            i <= rows.len(),
            dates@ == rows@.take(i as int).filter_map(spec_row_date_fn_chirho()),
        decreases rows.len() - i,
    {
        proof {
            rows@.lemma_filter_map_take_succ(spec_row_date_fn_chirho(), i as int);
        }
        if rows[i].len() > 0 {
            match text_col_chirho(&rows[i][0]) {
                Some(s) => dates.push(s),
                None => {},
            }
        }
        i += 1;
    }
    assert(rows@.take(rows.len() as int) =~= rows@);
    dates
}

/// The current and longest streaks of the dates in session rows, for the
/// given today and yesterday (see `spec_streaks_of_dates_chirho`).
pub fn streaks_of_rows_chirho(rows: &Vec<Vec<SqlValueChirho>>, today: &str, yesterday: &str) -> (r: (
    i32,
    i32,
))
    ensures
        spec_streaks_of_dates_chirho(spec_session_dates_chirho(rows@), today@, yesterday@, r),
        0 <= r.0,
        0 <= r.1,
{
    let dates = session_dates_of_rows_chirho(rows);
    if dates.len() == 0 || dates.len() > 2147483647 {
        return (0, 0);
    }
    reading_streaks_chirho(&dates, today, yesterday)
}

/// The current and longest reading streaks: the streaks of the dates that
/// `SESSION_DATES_SQL_CHIRHO` reads, from today's local date and the day
/// before it; (0, 0) when the dates cannot be read or there are none, and
/// when today or the day before is a day chrono cannot write (which no clock
/// reading gives). Which dates there are, and which day today is, are up to
/// the database and the clock. The current streak is never longer than the
/// longest.
pub fn calculate_reading_streaks_chirho(conn: &rusqlite::Connection) -> (r: (i32, i32))
    ensures
        0 <= r.0 <= r.1,
        r == (0i32, 0i32) || exists|rows: Seq<Vec<SqlValueChirho>>, days: i32|
            #[trigger] spec_streaks_of_dates_chirho(
                spec_session_dates_chirho(rows),
                spec_day_text_chirho(days),
                spec_day_before_text_chirho(days),
                r,
            ),
{
    let st = plain_statement_chirho(SESSION_DATES_SQL_CHIRHO);
    let rows = match query_chirho(conn, st.sql_chirho, &st.params_chirho, 1) {
        Ok(rows) => rows,
        Err(_) => {
            return (0, 0);
        },
    };
    let dates = session_dates_of_rows_chirho(&rows);
    if dates.len() == 0 {
        return (0, 0);
    }
    let days = local_today_days_chirho();
    let (today, yesterday) = day_and_day_before_chirho(days);
    if today.as_str().unicode_len() == 0 || yesterday.as_str().unicode_len() == 0 {
        return (0, 0);
    }
    let r = streaks_of_rows_chirho(&rows, today.as_str(), yesterday.as_str());
    assert(spec_streaks_of_dates_chirho(
        spec_session_dates_chirho(rows@),
        spec_day_text_chirho(days),
        spec_day_before_text_chirho(days),
        r,
    ));
    proof {
        let ds = spec_session_dates_chirho(rows@);
        if !(ds.len() == 0 || ds.len() > i32::MAX) {
            let chain = choose|chain: int|
                spec_current_streak_chirho(ds, today@, yesterday@, chain) && r.0
                    == #[trigger] spec_current_value_chirho(ds, today@, yesterday@, chain);
            law_current_streak_within_longest_chirho(ds, today@, yesterday@, chain);
        }
    }
    r
}

/// The statistics queries: chapters read, distinct chapters read, total
/// reading time, highlights, notes, bookmarks and books started.
pub const CHAPTERS_READ_SQL_CHIRHO: &'static str = "SELECT COUNT(*) FROM reading_history_chirho";
pub const UNIQUE_CHAPTERS_SQL_CHIRHO: &'static str =
    "SELECT COUNT(DISTINCT book_chirho || ':' || chapter_chirho) FROM reading_history_chirho";
pub const READING_TIME_SQL_CHIRHO: &'static str =
    "SELECT COALESCE(SUM(duration_seconds_chirho), 0) FROM reading_sessions_chirho";
pub const HIGHLIGHT_COUNT_SQL_CHIRHO: &'static str = "SELECT COUNT(*) FROM highlights_chirho";
pub const NOTE_COUNT_SQL_CHIRHO: &'static str = "SELECT COUNT(*) FROM notes_chirho";
pub const BOOKMARK_COUNT_SQL_CHIRHO: &'static str = "SELECT COUNT(*) FROM bookmarks_chirho";
pub const BOOKS_STARTED_SQL_CHIRHO: &'static str =
    "SELECT COUNT(DISTINCT book_chirho) FROM reading_history_chirho";

/// The statistics queries, in the order in which the record takes their
/// rows: chapters read, distinct chapters read, reading time, highlights,
/// notes, bookmarks and books started; none has parameters.
pub fn statistics_statements_chirho() -> (r: Vec<SqlStatementChirho>)
    ensures
        r.len() == 7,
        spec_statement_is_chirho(r@[0], CHAPTERS_READ_SQL_CHIRHO, seq![]),
        spec_statement_is_chirho(r@[1], UNIQUE_CHAPTERS_SQL_CHIRHO, seq![]),
        spec_statement_is_chirho(r@[2], READING_TIME_SQL_CHIRHO, seq![]),
        spec_statement_is_chirho(r@[3], HIGHLIGHT_COUNT_SQL_CHIRHO, seq![]),
        spec_statement_is_chirho(r@[4], NOTE_COUNT_SQL_CHIRHO, seq![]),
        spec_statement_is_chirho(r@[5], BOOKMARK_COUNT_SQL_CHIRHO, seq![]),
        spec_statement_is_chirho(r@[6], BOOKS_STARTED_SQL_CHIRHO, seq![]),
{
    vec![
        plain_statement_chirho(CHAPTERS_READ_SQL_CHIRHO),
        plain_statement_chirho(UNIQUE_CHAPTERS_SQL_CHIRHO),
        plain_statement_chirho(READING_TIME_SQL_CHIRHO),
        plain_statement_chirho(HIGHLIGHT_COUNT_SQL_CHIRHO),
        plain_statement_chirho(NOTE_COUNT_SQL_CHIRHO),
        plain_statement_chirho(BOOKMARK_COUNT_SQL_CHIRHO),
        plain_statement_chirho(BOOKS_STARTED_SQL_CHIRHO),
    ]
}

/// The statistics record out of the rows of each statistics query and the
/// streaks: each count as `spec_count_chirho` reads it, the reading time as
/// the first `i64` (0 when there is none), books completed always 0.
pub open spec fn spec_statistics_of_chirho(
    total: Seq<Vec<SqlValueChirho>>,
    unique: Seq<Vec<SqlValueChirho>>,
    time: Seq<Vec<SqlValueChirho>>,
    streaks: (i32, i32),
    highlights: Seq<Vec<SqlValueChirho>>,
    notes: Seq<Vec<SqlValueChirho>>,
    bookmarks: Seq<Vec<SqlValueChirho>>,
    books: Seq<Vec<SqlValueChirho>>,
) -> StatisticsChirho {
    StatisticsChirho {
        total_chapters_read_chirho: spec_count_chirho(total),
        unique_chapters_read_chirho: spec_count_chirho(unique),
        total_reading_time_seconds_chirho: match spec_first_i64_chirho(time) {
            Some(n) => n,
            None => 0,
        },
        current_streak_chirho: streaks.0,
        longest_streak_chirho: streaks.1,
        highlight_count_chirho: spec_count_chirho(highlights),
        note_count_chirho: spec_count_chirho(notes),
        bookmark_count_chirho: spec_count_chirho(bookmarks),
        books_started_chirho: spec_count_chirho(books),
        books_completed_chirho: 0,
    }
}

/// Builds the statistics record (see `spec_statistics_of_chirho`).
pub fn statistics_of_chirho(
    total: &Vec<Vec<SqlValueChirho>>,
    unique: &Vec<Vec<SqlValueChirho>>,
    time: &Vec<Vec<SqlValueChirho>>,
    streaks: (i32, i32),
    highlights: &Vec<Vec<SqlValueChirho>>,
    notes: &Vec<Vec<SqlValueChirho>>,
    bookmarks: &Vec<Vec<SqlValueChirho>>,
    books: &Vec<Vec<SqlValueChirho>>,
) -> (r: StatisticsChirho)
    ensures
        r == spec_statistics_of_chirho(
            total@,
            unique@,
            time@,
            streaks,
            highlights@,
            notes@,
            bookmarks@,
            books@,
        ),
{
    StatisticsChirho {
        total_chapters_read_chirho: count_of_rows_chirho(total),
        unique_chapters_read_chirho: count_of_rows_chirho(unique),
        total_reading_time_seconds_chirho: match first_i64_of_rows_chirho(time) {
            Some(n) => n,
            None => 0,
        },
        current_streak_chirho: streaks.0,
        longest_streak_chirho: streaks.1,
        highlight_count_chirho: count_of_rows_chirho(highlights),
        note_count_chirho: count_of_rows_chirho(notes),
        bookmark_count_chirho: count_of_rows_chirho(bookmarks),
        books_started_chirho: count_of_rows_chirho(books),
        books_completed_chirho: 0,
    }
}

/// Gathers the reading statistics: the record of the rows of the
/// statistics queries of `statistics_statements_chirho`, each in its place
/// (each that cannot be read counts as none), and the reading streaks.
/// What the rows hold is up to the database.
pub fn get_statistics_chirho(conn: &rusqlite::Connection) -> (r: Result<
    StatisticsChirho,
    DbErrorChirho,
>)
    ensures
        r matches Ok(s) && s.books_completed_chirho == 0 && 0 <= s.current_streak_chirho
            <= s.longest_streak_chirho,
        r matches Ok(s) && exists|
            total: Seq<Vec<SqlValueChirho>>,
            unique: Seq<Vec<SqlValueChirho>>,
            time: Seq<Vec<SqlValueChirho>>,
            streaks: (i32, i32),
            highlights: Seq<Vec<SqlValueChirho>>,
            notes: Seq<Vec<SqlValueChirho>>,
            bookmarks: Seq<Vec<SqlValueChirho>>,
            books: Seq<Vec<SqlValueChirho>>,
        |
            s == #[trigger] spec_statistics_of_chirho(
                total,
                unique,
                time,
                streaks,
                highlights,
                notes,
                bookmarks,
                books,
            ),
{
    let sts = statistics_statements_chirho();
    let total = rows_or_empty_chirho(conn, &sts[0], 1);
    let unique = rows_or_empty_chirho(conn, &sts[1], 1);
    let time = rows_or_empty_chirho(conn, &sts[2], 1);
    let streaks = calculate_reading_streaks_chirho(conn);
    let highlights = rows_or_empty_chirho(conn, &sts[3], 1);
    let notes = rows_or_empty_chirho(conn, &sts[4], 1);
    let bookmarks = rows_or_empty_chirho(conn, &sts[5], 1);
    let books = rows_or_empty_chirho(conn, &sts[6], 1);
    let s = statistics_of_chirho(&total, &unique, &time, streaks, &highlights, &notes, &bookmarks, &books);
    Ok(s)
}

// ---------------------------------------------------------------------------
// Journal
// ---------------------------------------------------------------------------

/// The SQL that `create_journal_entry_chirho` runs.
pub const CREATE_JOURNAL_ENTRY_SQL_CHIRHO: &'static str = "INSERT INTO journal_entries_chirho (title_chirho, content_chirho, verse_ref_chirho, tags_chirho)
         VALUES (?1, ?2, ?3, ?4)";

/// Creates a journal entry and answers its id.
pub fn create_journal_entry_chirho(
    conn: &rusqlite::Connection,
    title: &str,
    content: &str,
    verse_ref: Option<&str>,
    tags: Option<&str>,
) -> (r: Result<i64, DbErrorChirho>) {
    run_chirho(conn, &create_journal_entry_statement_chirho(title, content, verse_ref, tags))?;
    Ok(last_insert_rowid_chirho(conn))
}

/// The SQL that `update_journal_entry_chirho` runs.
pub const UPDATE_JOURNAL_ENTRY_SQL_CHIRHO: &'static str = "UPDATE journal_entries_chirho
         SET title_chirho = ?1, content_chirho = ?2, verse_ref_chirho = ?3, tags_chirho = ?4, updated_at_chirho = CURRENT_TIMESTAMP
         WHERE id_chirho = ?5";

/// Replaces the fields of the journal entry with id `id`.
pub fn update_journal_entry_chirho(
    conn: &rusqlite::Connection,
    id: i64,
    title: &str,
    content: &str,
    verse_ref: Option<&str>,
    tags: Option<&str>,
) -> (r: Result<(), DbErrorChirho>) {
    run_chirho(conn, &update_journal_entry_statement_chirho(id, title, content, verse_ref, tags))
}

/// The SQL that `delete_journal_entry_chirho` runs.
pub const DELETE_JOURNAL_ENTRY_SQL_CHIRHO: &'static str = "DELETE FROM journal_entries_chirho WHERE id_chirho = ?1";

/// Deletes the journal entry with id `id`.
pub fn delete_journal_entry_chirho(conn: &rusqlite::Connection, id: i64) -> (r: Result<
    (),
    DbErrorChirho,
>) {
    run_chirho(conn, &delete_journal_entry_statement_chirho(id))
}

/// The SQL that `get_journal_entry_chirho` runs.
pub const GET_JOURNAL_ENTRY_SQL_CHIRHO: &'static str = "SELECT id_chirho, title_chirho, content_chirho, verse_ref_chirho, tags_chirho, created_at_chirho, updated_at_chirho
         FROM journal_entries_chirho WHERE id_chirho = ?1";

/// The journal entry with id `id`, if there is one.
pub fn get_journal_entry_chirho(conn: &rusqlite::Connection, id: i64) -> (r: Option<
    JournalEntryChirho,
>)
    ensures
        r matches Some(e) ==> exists|row: Vec<SqlValueChirho>| #[trigger] spec_journal_of_row_chirho(row) == Some(e),
{
    let rows = rows_or_empty_chirho(conn, &get_journal_entry_statement_chirho(id), 7);
    if rows.len() > 0 {
        journal_of_row_chirho(&rows[0])
    } else {
        None
    }
}

/// The SQL that `get_all_journal_entries_chirho` runs.
pub const GET_ALL_JOURNAL_ENTRIES_SQL_CHIRHO: &'static str = "SELECT id_chirho, title_chirho, content_chirho, verse_ref_chirho, tags_chirho, created_at_chirho, updated_at_chirho
         FROM journal_entries_chirho ORDER BY created_at_chirho DESC";

/// All journal entries, newest first.
pub fn get_all_journal_entries_chirho(conn: &rusqlite::Connection) -> (r: Result<
    Vec<JournalEntryChirho>,
    DbErrorChirho,
>)
    ensures
        r matches Ok(v) ==> exists|rows: Seq<Vec<SqlValueChirho>>| v@ == #[trigger] rows.filter_map(spec_journal_row_fn_chirho()),
{
    let rows = rows_chirho(conn, &plain_statement_chirho(GET_ALL_JOURNAL_ENTRIES_SQL_CHIRHO), 7)?;
    Ok(decode_journal_rows_chirho(&rows))
}

/// The SQL that `search_journal_entries_chirho` runs.
pub const SEARCH_JOURNAL_ENTRIES_SQL_CHIRHO: &'static str = "SELECT id_chirho, title_chirho, content_chirho, verse_ref_chirho, tags_chirho, created_at_chirho, updated_at_chirho
         FROM journal_entries_chirho
         WHERE title_chirho LIKE ?1 OR content_chirho LIKE ?1 OR tags_chirho LIKE ?1
         ORDER BY created_at_chirho DESC";

/// The journal entries whose title, content or tags contain `query`
/// (SQLite's `LIKE`), newest first.
pub fn search_journal_entries_chirho(conn: &rusqlite::Connection, query: &str) -> (r: Result<
    Vec<JournalEntryChirho>,
    DbErrorChirho,
>)
    ensures
        r matches Ok(v) ==> exists|rows: Seq<Vec<SqlValueChirho>>| v@ == #[trigger] rows.filter_map(spec_journal_row_fn_chirho()),
{
    let rows = rows_chirho(conn, &search_journal_entries_statement_chirho(query), 7)?;
    Ok(decode_journal_rows_chirho(&rows))
}

/// The SQL that `get_journal_entry_count_chirho` runs.
pub const GET_JOURNAL_ENTRY_COUNT_SQL_CHIRHO: &'static str = "SELECT COUNT(*) FROM journal_entries_chirho";

/// The number of journal entries, or 0 when it cannot be read.
pub fn get_journal_entry_count_chirho(conn: &rusqlite::Connection) -> (r: i32)
    ensures
        exists|rows: Seq<Vec<SqlValueChirho>>| r == #[trigger] spec_count_chirho(rows),
{
    count_chirho(conn, GET_JOURNAL_ENTRY_COUNT_SQL_CHIRHO)
}

// ---------------------------------------------------------------------------
// Prayer requests
// ---------------------------------------------------------------------------

/// The SQL that `create_prayer_request_chirho` runs.
pub const CREATE_PRAYER_REQUEST_SQL_CHIRHO: &'static str = "INSERT INTO prayer_requests_chirho (title_chirho, description_chirho, verse_ref_chirho, category_chirho)
         VALUES (?1, ?2, ?3, ?4)";

/// Creates a prayer request and answers its id.
pub fn create_prayer_request_chirho(
    conn: &rusqlite::Connection,
    title: &str,
    description: Option<&str>,
    verse_ref: Option<&str>,
    category: Option<&str>,
) -> (r: Result<i64, DbErrorChirho>) {
    run_chirho(conn, &create_prayer_request_statement_chirho(title, description, verse_ref, category))?;
    Ok(last_insert_rowid_chirho(conn))
}

/// The SQL that `mark_prayer_answered_chirho` runs.
pub const MARK_PRAYER_ANSWERED_SQL_CHIRHO: &'static str = "UPDATE prayer_requests_chirho
         SET is_answered_chirho = 1, answered_at_chirho = CURRENT_TIMESTAMP
         WHERE id_chirho = ?1";

/// Marks the prayer request with id `id` answered, now.
pub fn mark_prayer_answered_chirho(conn: &rusqlite::Connection, id: i64) -> (r: Result<
    (),
    DbErrorChirho,
>) {
    run_chirho(conn, &mark_prayer_answered_statement_chirho(id))
}

/// The SQL that `delete_prayer_request_chirho` runs.
pub const DELETE_PRAYER_REQUEST_SQL_CHIRHO: &'static str = "DELETE FROM prayer_requests_chirho WHERE id_chirho = ?1";

/// Deletes the prayer request with id `id`.
pub fn delete_prayer_request_chirho(conn: &rusqlite::Connection, id: i64) -> (r: Result<
    (),
    DbErrorChirho,
>) {
    run_chirho(conn, &delete_prayer_request_statement_chirho(id))
}

/// The SQL that `get_all_prayer_requests_chirho` runs.
pub const GET_ALL_PRAYER_REQUESTS_SQL_CHIRHO: &'static str = "SELECT id_chirho, title_chirho, description_chirho, verse_ref_chirho, category_chirho,
                is_answered_chirho, answered_at_chirho, created_at_chirho
         FROM prayer_requests_chirho
         ORDER BY is_answered_chirho ASC, created_at_chirho DESC";

/// All prayer requests: the unanswered first, and within each group the
/// newest first.
pub fn get_all_prayer_requests_chirho(conn: &rusqlite::Connection) -> (r: Result<
    Vec<PrayerRequestChirho>,
    DbErrorChirho,
>)
    ensures
        r matches Ok(v) ==> exists|rows: Seq<Vec<SqlValueChirho>>| v@ == #[trigger] rows.filter_map(spec_prayer_row_fn_chirho()),
{
    let rows = rows_chirho(conn, &plain_statement_chirho(GET_ALL_PRAYER_REQUESTS_SQL_CHIRHO), 8)?;
    Ok(decode_prayer_rows_chirho(&rows))
}

/// The SQL that `get_prayer_counts_chirho` runs.
pub const GET_PRAYER_COUNTS_SQL_1_CHIRHO: &'static str = "SELECT COUNT(*) FROM prayer_requests_chirho WHERE is_answered_chirho = 0";

/// The SQL that `get_prayer_counts_chirho` runs.
pub const GET_PRAYER_COUNTS_SQL_2_CHIRHO: &'static str = "SELECT COUNT(*) FROM prayer_requests_chirho";

/// The number of unanswered prayer requests and of all of them; each is 0
/// when it cannot be read.
pub fn get_prayer_counts_chirho(conn: &rusqlite::Connection) -> (r: (i32, i32))
    ensures
        exists|active: Seq<Vec<SqlValueChirho>>, all: Seq<Vec<SqlValueChirho>>| r == (#[trigger] spec_count_chirho(active), #[trigger] spec_count_chirho(all)),
{
    let active = count_chirho(
        conn,
        GET_PRAYER_COUNTS_SQL_1_CHIRHO,
    );
    let total = count_chirho(conn, GET_PRAYER_COUNTS_SQL_2_CHIRHO);
    (active, total)
}

// ---------------------------------------------------------------------------
// Durations
// ---------------------------------------------------------------------------

/// Rust's truncating division (`/` on signed integers).
pub open spec fn spec_trunc_div_chirho(a: int, b: int) -> int
    recommends
        b > 0,
{
    if a >= 0 {
        a / b
    } else {
        -((-a) / b)
    }
}

/// Rust's truncating remainder (`%` on signed integers).
pub open spec fn spec_trunc_rem_chirho(a: int, b: int) -> int
    recommends
        b > 0,
{
    a - b * spec_trunc_div_chirho(a, b)
}

/// The whole hours of `seconds`.
pub open spec fn spec_duration_hours_chirho(seconds: int) -> int {
    spec_trunc_div_chirho(seconds, 3600)
}

/// The whole minutes of `seconds` beyond its whole hours.
pub open spec fn spec_duration_minutes_chirho(seconds: int) -> int {
    spec_trunc_div_chirho(spec_trunc_rem_chirho(seconds, 3600), 60)
}

/// "`h`h `m`m" when there is at least one whole hour, else "`m`m".
pub open spec fn spec_format_duration_chirho(seconds: int) -> Seq<char> {
    let h = spec_duration_hours_chirho(seconds);
    let m = spec_duration_minutes_chirho(seconds);
    if h > 0 {
        spec_int_decimal_chirho(h) + "h "@ + spec_int_decimal_chirho(m) + "m"@
    } else {
        spec_int_decimal_chirho(m) + "m"@
    }
}

/// Formats a duration in seconds as hours and minutes, such as "1h 1m" for
/// 3660 and "0m" for 59.
pub fn format_duration_chirho(seconds: i64) -> (r: String)
    ensures
        r@ == spec_format_duration_chirho(seconds as int),
{
    let hours: i64 = seconds / 3600;
    let minutes: i64 = (seconds % 3600) / 60;
    assert(hours == spec_duration_hours_chirho(seconds as int));
    assert(minutes == spec_duration_minutes_chirho(seconds as int));
    proof {
        reveal_strlit("h ");
        reveal_strlit("m");
    }
    if hours > 0 {
        let mut t = int_to_string_chirho(hours);
        t.append("h ");
        let m = int_to_string_chirho(minutes);
        t.append(m.as_str());
        t.append("m");
        t
    } else {
        let mut t = int_to_string_chirho(minutes);
        t.append("m");
        t
    }
}

} // verus!
