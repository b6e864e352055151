//! The conversation with the storage engine.
//!
//! A [`Session`] is an open connection together with a record of everything
//! that has passed over it: each statement that was handed to the engine, and
//! what the engine answered. The record is kept for the proofs alone and
//! costs nothing when the program runs. Only the session reaches the engine,
//! so the record is complete, and the contracts of the commands can say
//! exactly which statements a command hands over and what it makes of the
//! answers.
//!
//! The calls into `rusqlite` themselves are believed, not proved. What the
//! database holds is beyond the reach of any contract here, so no call that
//! hands a statement to the engine promises anything about the answer: the
//! commands are verified for every answer that may come. Two things are
//! specified all the same: the making of a value that is to be bound, over
//! what the value holds, and the reading of a row that has come back, over
//! the columns that the row holds.

use vstd::prelude::*;
use vstd::string::to_string_from_display_ensures;
use vstd::utf8::{decode_utf8, valid_utf8};
use crate::models::{DbPath, EntryRow, EntryRowView};
use crate::sql::{SqlStatement, SqlStatementView, SqlValue, SqlValueView};

verus! {

/// An open connection to a database: `rusqlite::Connection`.
#[verifier::external_type_specification]
#[verifier::external_body]
pub struct ExConnection(rusqlite::Connection);

/// A statement that the engine has compiled: `rusqlite::Statement`.
#[verifier::external_type_specification]
#[verifier::external_body]
pub struct ExStatement<'conn>(rusqlite::Statement<'conn>);

/// One row of the result of a query: `rusqlite::Row`.
#[verifier::external_type_specification]
#[verifier::external_body]
pub struct ExRow<'stmt>(rusqlite::Row<'stmt>);

/// A value in the form in which the engine binds it: `rusqlite::types::Value`.
#[verifier::external_type_specification]
#[verifier::external_body]
pub struct ExValue(rusqlite::types::Value);

/// A failure that the engine reported: `rusqlite::Error`.
#[verifier::external_type_specification]
#[verifier::external_body]
pub struct ExError(rusqlite::Error);

/// What is read of a failure that the engine reported.
#[derive(Clone, Debug, PartialEq, Eq)]
pub struct StorageFailure {
    /// Whether the failure is that a query which had to return a row
    /// returned none.
    pub no_rows: bool,
    /// The engine's own description of the failure.
    pub message: String,
}

/// The mathematical value of a [`StorageFailure`].
pub struct StorageFailureView {
    pub no_rows: bool,
    pub message: Seq<char>,
}

impl View for StorageFailure {
    type V = StorageFailureView;

    open spec fn view(&self) -> StorageFailureView {
        StorageFailureView { no_rows: self.no_rows, message: self.message@ }
    }
}

/// The mathematical value of an answer that is either a value or a failure.
pub open spec fn answer_view<T: View>(answer: Result<T, StorageFailure>) -> Result<
    T::V,
    StorageFailureView,
> {
    match answer {
        Ok(value) => Ok(value@),
        Err(failure) => Err(failure@),
    }
}

/// What the engine answered to a listing. A listing can fail in three
/// places: when the query is compiled, when its values are bound, and when
/// its rows are read.
#[derive(Clone, Debug, PartialEq, Eq)]
pub enum Listing {
    /// The query could not be compiled.
    Unprepared(StorageFailure),
    /// The values could not be bound.
    Unstarted(StorageFailure),
    /// A row could not be read.
    Unread(StorageFailure),
    /// Every row that the query returned, in the order of the engine.
    Rows(Vec<EntryRow>),
}

/// The mathematical value of a [`Listing`].
pub enum ListingView {
    Unprepared(StorageFailureView),
    Unstarted(StorageFailureView),
    Unread(StorageFailureView),
    Rows(Seq<EntryRowView>),
}

impl View for Listing {
    type V = ListingView;

    open spec fn view(&self) -> ListingView {
        match self {
            Listing::Unprepared(failure) => ListingView::Unprepared(failure@),
            Listing::Unstarted(failure) => ListingView::Unstarted(failure@),
            Listing::Unread(failure) => ListingView::Unread(failure@),
            Listing::Rows(rows) => ListingView::Rows(Seq::new(rows@.len(), |i: int| rows@[i]@)),
        }
    }
}

/// What the engine answered to one statement.
pub enum Answer {
    /// To a query for one truth value: the value.
    Flag(Result<bool, StorageFailureView>),
    /// To a query for one row of the entries table: the row.
    Entry(Result<EntryRowView, StorageFailureView>),
    /// To a listing of the entries table: its rows.
    Entries(ListingView),
    /// To an insert: the id that the table gave the new row.
    Inserted(Result<i64, StorageFailureView>),
    /// To an update or a delete: the number of rows that it changed.
    Changed(Result<usize, StorageFailureView>),
}

/// One statement handed to the engine, and what the engine answered.
pub struct Exchange {
    pub statement: SqlStatementView,
    pub answer: Answer,
}

/// Whether a `rusqlite::Error` is `QueryReturnedNoRows`: the failure of a
/// query that had to return a row and returned none.
#[verifier::external_body]
fn is_no_rows(error: &rusqlite::Error) -> (no_rows: bool) {
    matches!(error, rusqlite::Error::QueryReturnedNoRows)
}

/// What a `rusqlite::types::Value` holds: the integer, the text or the null
/// that it was made from.
pub uninterp spec fn value_held(value: rusqlite::types::Value) -> SqlValueView;

/// An integer in the form in which the engine binds it:
/// `rusqlite::types::Value::Integer`. The value holds that integer.
#[verifier::external_body]
fn integer_value(number: i64) -> (value: rusqlite::types::Value)
    ensures
        value_held(value) == SqlValueView::Integer(number as int),
{
    rusqlite::types::Value::Integer(number)
}

/// A text in the form in which the engine binds it:
/// `rusqlite::types::Value::Text`. The value holds that text.
#[verifier::external_body]
fn text_value(text: String) -> (value: rusqlite::types::Value)
    ensures
        value_held(value) == SqlValueView::Text(text@),
{
    rusqlite::types::Value::Text(text)
}

/// The null value in the form in which the engine binds it:
/// `rusqlite::types::Value::Null`. The value holds null.
#[verifier::external_body]
fn null_value() -> (value: rusqlite::types::Value)
    ensures
        value_held(value) == SqlValueView::Null,
{
    rusqlite::types::Value::Null
}

/// Opens the database at `path` with `rusqlite::Connection::open`, which
/// creates the file if there is none. Nothing is claimed of the outcome.
#[verifier::external_body]
fn open_database(path: &str) -> (opened: Result<rusqlite::Connection, rusqlite::Error>) {
    rusqlite::Connection::open(path)
}

/// Runs a statement that returns no rows with `rusqlite::Connection::execute`
/// and brings back the number of rows that it changed. Nothing is claimed of
/// the outcome.
#[verifier::external_body]
fn execute(
    db: &rusqlite::Connection,
    sql: &str,
    values: Vec<rusqlite::types::Value>,
) -> (changed: Result<usize, rusqlite::Error>) {
    db.execute(sql, rusqlite::params_from_iter(values))
}

/// The row id of the last successful insert on this connection:
/// `rusqlite::Connection::last_insert_rowid`. Nothing is claimed of it.
#[verifier::external_body]
fn last_insert_rowid(db: &rusqlite::Connection) -> (id: i64) {
    db.last_insert_rowid()
}

/// What one column of a row holds, in the five kinds by which the engine
/// tells values apart (`rusqlite::types::ValueRef`): nothing, an integer, a
/// real number, the bytes of a text, or a blob. Of a real number and of a
/// blob only the kind is kept, since no reading here goes by more.
pub enum ColumnValue {
    Null,
    Integer(i64),
    Real,
    Text(Seq<u8>),
    Blob,
}

/// What a `rusqlite::Row` holds: the values of its columns, first column
/// first, as many as the query returns. The row is the current row of its
/// statement and cannot change while it is borrowed, so what it holds goes
/// by the row alone.
pub uninterp spec fn row_columns(row: rusqlite::Row<'_>) -> Seq<ColumnValue>;

/// What a column holds, if the row has such a column.
pub open spec fn column_at(columns: Seq<ColumnValue>, index: int) -> Option<ColumnValue> {
    if 0 <= index < columns.len() {
        Some(columns[index])
    } else {
        None
    }
}

/// A column read as an integer: the integer that it holds. A column that
/// holds anything else, or nothing, cannot be read so.
pub open spec fn integer_at(columns: Seq<ColumnValue>, index: int) -> Option<i64> {
    match column_at(columns, index) {
        Some(ColumnValue::Integer(number)) => Some(number),
        _ => None,
    }
}

/// A column read as an integer or as nothing: nothing if it holds nothing,
/// the integer if it holds one. A column that holds anything else cannot be
/// read so.
pub open spec fn optional_integer_at(columns: Seq<ColumnValue>, index: int) -> Option<
    Option<i64>,
> {
    match column_at(columns, index) {
        Some(ColumnValue::Null) => Some(None),
        Some(ColumnValue::Integer(number)) => Some(Some(number)),
        _ => None,
    }
}

/// A column read as a truth value: whether the integer that it holds is
/// other than zero. A column that holds no integer cannot be read so.
pub open spec fn flag_at(columns: Seq<ColumnValue>, index: int) -> Option<bool> {
    match integer_at(columns, index) {
        Some(number) => Some(number != 0),
        None => None,
    }
}

/// A column read as a text: the characters that its bytes encode. A column
/// that holds no text, or bytes that encode none, cannot be read so.
pub open spec fn text_at(columns: Seq<ColumnValue>, index: int) -> Option<Seq<char>> {
    match column_at(columns, index) {
        Some(ColumnValue::Text(bytes)) => if valid_utf8(bytes) {
            Some(decode_utf8(bytes))
        } else {
            None
        },
        _ => None,
    }
}

/// A column read as a text or as nothing: nothing if it holds nothing, the
/// text if it holds one. A column that holds anything else cannot be read so.
pub open spec fn optional_text_at(columns: Seq<ColumnValue>, index: int) -> Option<
    Option<Seq<char>>,
> {
    match column_at(columns, index) {
        Some(ColumnValue::Null) => Some(None),
        _ => match text_at(columns, index) {
            Some(text) => Some(Some(text)),
            None => None,
        },
    }
}

/// The row of the entries table that a row of seven columns is read as: the
/// columns in the order of the table, each in the type of the field that it
/// fills. If one of the seven cannot be read in its type, neither can the
/// row.
pub open spec fn entry_row_at(columns: Seq<ColumnValue>) -> Option<EntryRowView> {
    if integer_at(columns, 0) is Some && integer_at(columns, 1) is Some && text_at(columns, 2)
        is Some && text_at(columns, 3) is Some && text_at(columns, 4) is Some
        && optional_integer_at(columns, 5) is Some && optional_text_at(columns, 6) is Some {
        Some(
            EntryRowView {
                id: integer_at(columns, 0)->0 as int,
                member_id: integer_at(columns, 1)->0 as int,
                timestamp: text_at(columns, 2)->0,
                meal_type: text_at(columns, 3)->0,
                description: text_at(columns, 4)->0,
                calories: match optional_integer_at(columns, 5)->0 {
                    Some(calories) => Some(calories as int),
                    None => None,
                },
                notes: optional_text_at(columns, 6)->0,
            },
        )
    } else {
        None
    }
}

/// What came of reading a value: the value, or nothing if it could not be
/// read.
pub open spec fn value_read<T>(read: Result<T, rusqlite::Error>) -> Option<T> {
    match read {
        Ok(value) => Some(value),
        Err(_) => None,
    }
}

/// What came of reading a text: its characters, or nothing if it could not
/// be read.
pub open spec fn text_read(read: Result<String, rusqlite::Error>) -> Option<Seq<char>> {
    match read {
        Ok(text) => Some(text@),
        Err(_) => None,
    }
}

/// What came of reading a text or nothing: the characters of the text if
/// there is one, or nothing if it could not be read.
pub open spec fn optional_text_read(read: Result<Option<String>, rusqlite::Error>) -> Option<
    Option<Seq<char>>,
> {
    match read {
        Ok(Some(text)) => Some(Some(text@)),
        Ok(None) => Some(None),
        Err(_) => None,
    }
}

/// What came of reading a row of the entries table: the row, or nothing if
/// it could not be read.
pub open spec fn entry_row_read(read: Result<EntryRow, rusqlite::Error>) -> Option<EntryRowView> {
    match read {
        Ok(row) => Some(row@),
        Err(_) => None,
    }
}

/// Reads a column of a row as a truth value, with `rusqlite::Row::get`. It
/// succeeds exactly if the row has the column and the column holds an
/// integer, and the value is whether that integer is other than zero.
#[verifier::external_body]
fn flag_column(row: &rusqlite::Row<'_>, index: usize) -> (flag: Result<bool, rusqlite::Error>)
    ensures
        value_read(flag) == flag_at(row_columns(*row), index as int),
{
    row.get(index)
}

/// Reads a column of a row as an integer, with `rusqlite::Row::get`. It
/// succeeds exactly if the row has the column and the column holds an
/// integer, and the value is that integer.
#[verifier::external_body]
fn integer_column(row: &rusqlite::Row<'_>, index: usize) -> (number: Result<
    i64,
    rusqlite::Error,
>)
    ensures
        value_read(number) == integer_at(row_columns(*row), index as int),
{
    row.get(index)
}

/// Reads a column of a row as an integer or as nothing, with
/// `rusqlite::Row::get`. It succeeds exactly if the row has the column and
/// the column holds an integer or nothing, and the value is what it holds.
#[verifier::external_body]
fn optional_integer_column(row: &rusqlite::Row<'_>, index: usize) -> (number: Result<
    Option<i64>,
    rusqlite::Error,
>)
    ensures
        value_read(number) == optional_integer_at(row_columns(*row), index as int),
{
    row.get(index)
}

/// Reads a column of a row as a text, with `rusqlite::Row::get`. It succeeds
/// exactly if the row has the column and the column holds a text whose bytes
/// are well-formed UTF-8, and the value is the text that the bytes encode.
#[verifier::external_body]
fn text_column(row: &rusqlite::Row<'_>, index: usize) -> (text: Result<String, rusqlite::Error>)
    ensures
        text_read(text) == text_at(row_columns(*row), index as int),
{
    row.get(index)
}

/// Reads a column of a row as a text or as nothing, with
/// `rusqlite::Row::get`. It succeeds exactly if the row has the column and
/// the column holds nothing or a text whose bytes are well-formed UTF-8, and
/// the value is nothing or the text that the bytes encode.
#[verifier::external_body]
fn optional_text_column(row: &rusqlite::Row<'_>, index: usize) -> (text: Result<
    Option<String>,
    rusqlite::Error,
>)
    ensures
        optional_text_read(text) == optional_text_at(row_columns(*row), index as int),
{
    row.get(index)
}

/// Runs a query with `rusqlite::Connection::query_row` and reads its first
/// row as the answer to a question. Nothing is claimed of the outcome.
#[verifier::external_body]
fn query_flag(
    db: &rusqlite::Connection,
    sql: &str,
    values: Vec<rusqlite::types::Value>,
) -> (flag: Result<bool, rusqlite::Error>) {
    db.query_row(sql, rusqlite::params_from_iter(values), |row| flag_of(row))
}

/// Runs a query with `rusqlite::Connection::query_row` and reads its first
/// row as a row of the entries table. Nothing is claimed of the outcome.
#[verifier::external_body]
fn query_entry(
    db: &rusqlite::Connection,
    sql: &str,
    values: Vec<rusqlite::types::Value>,
) -> (row: Result<EntryRow, rusqlite::Error>) {
    db.query_row(sql, rusqlite::params_from_iter(values), |row| entry_row_of(row))
}

/// Compiles a statement with `rusqlite::Connection::prepare`. Nothing is
/// claimed of the outcome.
#[verifier::external_body]
fn prepare<'conn>(db: &'conn rusqlite::Connection, sql: &str) -> (prepared: Result<
    rusqlite::Statement<'conn>,
    rusqlite::Error,
>) {
    db.prepare(sql)
}

/// Runs a compiled query with `rusqlite::Statement::query_map` and reads
/// every row as a row of the entries table. The outer result is that of
/// `query_map`, which binds the values; the inner one is that of walking the
/// rows, which ends at the first row that fails. Nothing is claimed of the
/// outcome.
#[verifier::external_body]
fn query_entries(
    prepared: &mut rusqlite::Statement<'_>,
    values: Vec<rusqlite::types::Value>,
) -> (rows: Result<Result<Vec<EntryRow>, rusqlite::Error>, rusqlite::Error>) {
    let rows = prepared.query_map(rusqlite::params_from_iter(values), |row| entry_row_of(row))?;
    Ok(rows.collect())
}

/// Reads what the commands need of a failure that the engine reported:
/// whether it is the failure of a query that returned no row, and the
/// engine's own description of it, which is what the failure writes when it
/// is displayed.
fn read_failure(error: rusqlite::Error) -> (failure: StorageFailure)
    ensures
        to_string_from_display_ensures::<rusqlite::Error>(&error, failure.message),
{
    StorageFailure { no_rows: is_no_rows(&error), message: error.to_string() }
}

/// Puts the bound values into the form in which the engine binds them, one
/// for one and in order: each value that comes out holds what the value in
/// its place held.
fn bind(params: &Vec<SqlValue>) -> (values: Vec<rusqlite::types::Value>)
    ensures
        values@.len() == params@.len(),
        forall|k: int|
            0 <= k < params@.len() ==> value_held(#[trigger] values@[k]) == params@[k]@,
{
    let mut values: Vec<rusqlite::types::Value> = Vec::new();
    let mut i: usize = 0;
    while i < params.len()
        invariant
            i <= params@.len(),
            values@.len() == i,
            forall|k: int| 0 <= k < i ==> value_held(#[trigger] values@[k]) == params@[k]@,
        decreases params@.len() - i,
    {
        let value = match &params[i] {
            SqlValue::Integer(number) => integer_value(*number),
            SqlValue::Text(text) => text_value(text.clone()),
            SqlValue::Null => null_value(),
        };
        values.push(value);
        i += 1;
    }
    values
}

/// Reads the answer to a question out of the one row that answers it: the
/// first column, as a truth value.
fn flag_of(row: &rusqlite::Row<'_>) -> (flag: Result<bool, rusqlite::Error>)
    ensures
        value_read(flag) == flag_at(row_columns(*row), 0),
{
    flag_column(row, 0)
}

/// Reads a row of the entries table: the seven columns in the order of the
/// table, each in the type of the field it fills. The meal type is read
/// first, and the first column that cannot be read ends the reading.
fn entry_row_of(row: &rusqlite::Row<'_>) -> (read: Result<EntryRow, rusqlite::Error>)
    ensures
        entry_row_read(read) == entry_row_at(row_columns(*row)),
{
    let meal_type = match text_column(row, 3) {
        Ok(meal_type) => meal_type,
        Err(error) => {
            return Err(error);
        },
    };
    let id = match integer_column(row, 0) {
        Ok(id) => id,
        Err(error) => {
            return Err(error);
        },
    };
    let member_id = match integer_column(row, 1) {
        Ok(member_id) => member_id,
        Err(error) => {
            return Err(error);
        },
    };
    let timestamp = match text_column(row, 2) {
        Ok(timestamp) => timestamp,
        Err(error) => {
            return Err(error);
        },
    };
    let description = match text_column(row, 4) {
        Ok(description) => description,
        Err(error) => {
            return Err(error);
        },
    };
    let calories = match optional_integer_column(row, 5) {
        Ok(calories) => calories,
        Err(error) => {
            return Err(error);
        },
    };
    let notes = match optional_text_column(row, 6) {
        Ok(notes) => notes,
        Err(error) => {
            return Err(error);
        },
    };
    Ok(EntryRow { id, member_id, timestamp, meal_type, description, calories, notes })
}

/// Reads the failure out of an answer of the engine, and leaves a success
/// as it is.
fn answer_read<T>(answer: Result<T, rusqlite::Error>) -> (read: Result<T, StorageFailure>)
    ensures
        match answer {
            Ok(value) => read == Ok::<T, StorageFailure>(value),
            Err(_) => read is Err,
        },
{
    match answer {
        Ok(value) => Ok(value),
        Err(error) => Err(read_failure(error)),
    }
}

/// An open connection, and the record of what has passed over it.
pub struct Session {
    db: rusqlite::Connection,
    exchanges: Ghost<Seq<Exchange>>,
}

impl Session {
    /// Everything that has passed over this connection, oldest first.
    pub closed spec fn exchanges(&self) -> Seq<Exchange> {
        self.exchanges@
    }

    /// Opens the database. Nothing has passed over a connection that was
    /// just opened.
    pub fn open(db_path: &DbPath) -> (opened: Result<Session, StorageFailure>)
        ensures
            opened matches Ok(session) ==> session.exchanges() == Seq::<Exchange>::empty(),
    {
        match open_database(db_path.0.as_str()) {
            Ok(db) => Ok(Session { db, exchanges: Ghost(Seq::empty()) }),
            Err(error) => Err(read_failure(error)),
        }
    }

    /// Asks the engine a question whose answer is one truth value.
    pub(crate) fn read_flag(&mut self, statement: &SqlStatement) -> (flag: Result<
        bool,
        StorageFailure,
    >)
        ensures
            final(self).exchanges() == old(self).exchanges().push(
                Exchange { statement: statement@, answer: Answer::Flag(answer_view(flag)) },
            ),
    {
        let values = bind(&statement.params);
        let flag = answer_read(query_flag(&self.db, statement.sql.as_str(), values));
        proof {
            self.exchanges@ = self.exchanges@.push(
                Exchange { statement: statement@, answer: Answer::Flag(answer_view(flag)) },
            );
        }
        flag
    }

    /// Asks the engine for one row of the entries table.
    pub(crate) fn read_entry(&mut self, statement: &SqlStatement) -> (row: Result<
        EntryRow,
        StorageFailure,
    >)
        ensures
            final(self).exchanges() == old(self).exchanges().push(
                Exchange { statement: statement@, answer: Answer::Entry(answer_view(row)) },
            ),
    {
        let values = bind(&statement.params);
        let row = answer_read(query_entry(&self.db, statement.sql.as_str(), values));
        proof {
            self.exchanges@ = self.exchanges@.push(
                Exchange { statement: statement@, answer: Answer::Entry(answer_view(row)) },
            );
        }
        row
    }

    /// Asks the engine for all rows of the entries table that a query
    /// returns.
    pub(crate) fn read_entries(&mut self, statement: &SqlStatement) -> (listing: Listing)
        ensures
            final(self).exchanges() == old(self).exchanges().push(
                Exchange { statement: statement@, answer: Answer::Entries(listing@) },
            ),
    {
        let listing = match prepare(&self.db, statement.sql.as_str()) {
            Err(error) => Listing::Unprepared(read_failure(error)),
            Ok(mut prepared) => match query_entries(&mut prepared, bind(&statement.params)) {
                Err(error) => Listing::Unstarted(read_failure(error)),
                Ok(Err(error)) => Listing::Unread(read_failure(error)),
                Ok(Ok(rows)) => Listing::Rows(rows),
            },
        };
        proof {
            self.exchanges@ = self.exchanges@.push(
                Exchange { statement: statement@, answer: Answer::Entries(listing@) },
            );
        }
        listing
    }

    /// Has the engine insert a row, and asks it for the id that the table
    /// gave the row.
    pub(crate) fn insert(&mut self, statement: &SqlStatement) -> (inserted: Result<
        i64,
        StorageFailure,
    >)
        ensures
            final(self).exchanges() == old(self).exchanges().push(
                Exchange { statement: statement@, answer: Answer::Inserted(answer_view(inserted)) },
            ),
    {
        let values = bind(&statement.params);
        let inserted = match execute(&self.db, statement.sql.as_str(), values) {
            Ok(_) => Ok(last_insert_rowid(&self.db)),
            Err(error) => Err(read_failure(error)),
        };
        proof {
            self.exchanges@ = self.exchanges@.push(
                Exchange { statement: statement@, answer: Answer::Inserted(answer_view(inserted)) },
            );
        }
        inserted
    }

    /// Has the engine run a statement that changes rows.
    pub(crate) fn change(&mut self, statement: &SqlStatement) -> (changed: Result<
        usize,
        StorageFailure,
    >)
        ensures
            final(self).exchanges() == old(self).exchanges().push(
                Exchange { statement: statement@, answer: Answer::Changed(answer_view(changed)) },
            ),
    {
        let values = bind(&statement.params);
        let changed = answer_read(execute(&self.db, statement.sql.as_str(), values));
        proof {
            self.exchanges@ = self.exchanges@.push(
                Exchange { statement: statement@, answer: Answer::Changed(answer_view(changed)) },
            );
        }
        changed
    }
}

} // verus!
