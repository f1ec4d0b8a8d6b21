//! The record store: one table of download records, kept in an SQLite
//! database and found again by URL.

use crate::config::Config;
use crate::files::{File, FileView};
use crate::text::{join_path, joined, same_text};
use vstd::prelude::*;

verus! {

/// One row of the table of downloads.
#[derive(Debug)]
pub struct DownloadRecord {
    pub id: u64,
    pub file_url: String,
    pub file_name: String,
    pub file_type: String,
    pub extension: String,
    pub destination_dir: String,
    pub destination_path: String,
    pub file_size: u64,
    pub download_start_time: i64,
    pub download_stop_time: i64,
    pub download_status: String,
}

/// `DownloadRecord` with each text field as a sequence of characters.
pub struct RecordView {
    pub id: u64,
    pub file_url: Seq<char>,
    pub file_name: Seq<char>,
    pub file_type: Seq<char>,
    pub extension: Seq<char>,
    pub destination_dir: Seq<char>,
    pub destination_path: Seq<char>,
    pub file_size: u64,
    pub download_start_time: i64,
    pub download_stop_time: i64,
    pub download_status: Seq<char>,
}

impl View for DownloadRecord {
    type V = RecordView;

    open spec fn view(&self) -> RecordView {
        RecordView {
            id: self.id,
            file_url: self.file_url@,
            file_name: self.file_name@,
            file_type: self.file_type@,
            extension: self.extension@,
            destination_dir: self.destination_dir@,
            destination_path: self.destination_path@,
            file_size: self.file_size,
            download_start_time: self.download_start_time,
            download_stop_time: self.download_stop_time,
            download_status: self.download_status@,
        }
    }
}

impl Clone for DownloadRecord {
    fn clone(&self) -> (r: DownloadRecord)
        ensures
            r == *self,
    {
        DownloadRecord {
            id: self.id,
            file_url: self.file_url.clone(),
            file_name: self.file_name.clone(),
            file_type: self.file_type.clone(),
            extension: self.extension.clone(),
            destination_dir: self.destination_dir.clone(),
            destination_path: self.destination_path.clone(),
            file_size: self.file_size,
            download_start_time: self.download_start_time,
            download_stop_time: self.download_stop_time,
            download_status: self.download_status.clone(),
        }
    }
}

/// The record under which a download is stored. It carries no identifier
/// yet: the store assigns one. The duration is left out.
pub open spec fn record_of_file(f: FileView) -> RecordView {
    RecordView {
        id: 0,
        file_url: f.file_url,
        file_name: f.file_name,
        file_type: f.file_type.name(),
        extension: f.extension,
        destination_dir: f.destination_dir,
        destination_path: f.destination_path,
        file_size: f.file_size,
        download_start_time: f.download_start_time,
        download_stop_time: f.download_stop_time,
        download_status: f.download_status.name(),
    }
}

impl DownloadRecord {
    /// Turns a download into the record that is stored for it.
    pub fn from(f: File) -> (r: DownloadRecord)
        ensures
            r@ == record_of_file(f@),
    {
        let file_type = f.file_type.to_string();
        let download_status = f.download_status.to_string();
        DownloadRecord {
            id: 0,
            file_url: f.file_url,
            file_name: f.file_name,
            file_type,
            extension: f.extension,
            destination_dir: f.destination_dir,
            destination_path: f.destination_path,
            file_size: f.file_size,
            download_start_time: f.download_start_time,
            download_stop_time: f.download_stop_time,
            download_status,
        }
    }
}

/// A value that is bound to a placeholder of a statement.
#[derive(Debug)]
pub enum SqlParam {
    Integer(i64),
    Text(String),
}

/// A value as it stands in a column of a row. The table of downloads has no
/// column for a real number or a blob, so their content is not carried.
#[derive(Debug)]
pub enum SqlValue {
    Null,
    Integer(i64),
    Real,
    Text(String),
    Blob,
    /// The column is there, but what it holds could not be read: a text
    /// that is not UTF-8.
    Unreadable,
}

/// Why a row could not be read as a record; each variant names the column.
#[derive(Debug, Clone, Copy, PartialEq, Eq, Structural)]
pub enum RowError {
    /// The row has no column with this index.
    Missing(usize),
    /// The column should hold a text and holds something else.
    NotText(usize),
    /// The column should hold an integer and holds something else.
    NotInteger(usize),
    /// The column should hold a size or an identifier and holds a negative number.
    Negative(usize),
}

/// How a call into the database failed, as far as the store tells failures
/// apart.
#[derive(Debug, Clone, Copy, PartialEq, Eq, Structural)]
pub enum DbFailure {
    /// A query for one row found none.
    NoRows,
    /// SQLite refused, with this extended result code.
    Sqlite(i32),
    /// Any other failure.
    Other,
}

/// Why an operation of the store failed.
#[derive(Debug, Clone, Copy, PartialEq, Eq, Structural)]
pub enum StoreError {
    /// A record with the same URL or the same destination path is stored already.
    UniqueViolation,
    /// A size that the table cannot hold: more than `i64::MAX`.
    ValueOutOfRange,
    /// SQLite refused, with this extended result code.
    Sqlite(i32),
    /// A row of the table could not be read as a record.
    Row(RowError),
    /// The database answered with something that does not fit the question.
    Inconsistent,
    /// Any other failure of the database layer.
    Other,
}

/// SQLite's extended result code for a broken `UNIQUE` constraint.
pub const SQLITE_CONSTRAINT_UNIQUE: i32 = 2067;

/// SQLite's extended result code for a broken `PRIMARY KEY` constraint.
pub const SQLITE_CONSTRAINT_PRIMARYKEY: i32 = 1555;

/// The number of columns of the table of downloads.
pub const COLUMNS: usize = 11;

/// The text in column `i`, or why there is none.
pub open spec fn text_in(values: Seq<SqlValue>, i: int) -> Result<Seq<char>, RowError> {
    if i >= values.len() {
        Err(RowError::Missing(i as usize))
    } else {
        match values[i] {
            SqlValue::Text(t) => Ok(t@),
            _ => Err(RowError::NotText(i as usize)),
        }
    }
}

/// The integer in column `i`, or why there is none.
pub open spec fn integer_in(values: Seq<SqlValue>, i: int) -> Result<i64, RowError> {
    if i >= values.len() {
        Err(RowError::Missing(i as usize))
    } else {
        match values[i] {
            SqlValue::Integer(n) => Ok(n),
            _ => Err(RowError::NotInteger(i as usize)),
        }
    }
}

/// The integer in column `i` as a number that cannot be negative, or why
/// there is none.
pub open spec fn unsigned_in(values: Seq<SqlValue>, i: int) -> Result<u64, RowError> {
    match integer_in(values, i) {
        Ok(n) => if n < 0 {
            Err(RowError::Negative(i as usize))
        } else {
            Ok(n as u64)
        },
        Err(e) => Err(e),
    }
}

/// What is wrong with column `i`, where something is. The identifier and the
/// size are numbers that cannot be negative, the two timestamps are integers,
/// and the other seven columns are texts.
pub open spec fn column_error(values: Seq<SqlValue>, i: int) -> Option<RowError> {
    if i == 0 || i == 7 {
        match unsigned_in(values, i) {
            Ok(_) => None,
            Err(e) => Some(e),
        }
    } else if i == 8 || i == 9 {
        match integer_in(values, i) {
            Ok(_) => None,
            Err(e) => Some(e),
        }
    } else {
        match text_in(values, i) {
            Ok(_) => None,
            Err(e) => Some(e),
        }
    }
}

/// What is wrong with the first column from `from` on that is not as it
/// should be; `None` where all of them are.
pub open spec fn first_column_error(values: Seq<SqlValue>, from: int) -> Option<RowError>
    decreases COLUMNS - from,
{
    if from < 0 || from >= COLUMNS {
        None
    } else {
        match column_error(values, from) {
            Some(e) => Some(e),
            None => first_column_error(values, from + 1),
        }
    }
}

/// The record that the columns of a row hold, in the order of the table:
/// identifier, URL, file name, category, extension, directory, path, size,
/// start, stop, state. Where a column is missing or holds a value of another
/// kind, the result is what is wrong with the first such column.
pub open spec fn record_in(values: Seq<SqlValue>) -> Result<RecordView, RowError> {
    match first_column_error(values, 0) {
        Some(e) => Err(e),
        None => Ok(
            RecordView {
                id: unsigned_in(values, 0)->Ok_0,
                file_url: text_in(values, 1)->Ok_0,
                file_name: text_in(values, 2)->Ok_0,
                file_type: text_in(values, 3)->Ok_0,
                extension: text_in(values, 4)->Ok_0,
                destination_dir: text_in(values, 5)->Ok_0,
                destination_path: text_in(values, 6)->Ok_0,
                file_size: unsigned_in(values, 7)->Ok_0,
                download_start_time: integer_in(values, 8)->Ok_0,
                download_stop_time: integer_in(values, 9)->Ok_0,
                download_status: text_in(values, 10)->Ok_0,
            },
        ),
    }
}

fn text_at(values: &Vec<SqlValue>, i: usize) -> (r: Result<String, RowError>)
    ensures
        match r {
            Ok(t) => text_in(values@, i as int) == Ok::<Seq<char>, RowError>(t@),
            Err(e) => text_in(values@, i as int) == Err::<Seq<char>, RowError>(e),
        },
{
    if i >= values.len() {
        return Err(RowError::Missing(i));
    }
    match &values[i] {
        SqlValue::Text(t) => Ok(t.clone()),
        _ => Err(RowError::NotText(i)),
    }
}

fn integer_at(values: &Vec<SqlValue>, i: usize) -> (r: Result<i64, RowError>)
    ensures
        r == integer_in(values@, i as int),
{
    if i >= values.len() {
        return Err(RowError::Missing(i));
    }
    match &values[i] {
        SqlValue::Integer(n) => Ok(*n),
        _ => Err(RowError::NotInteger(i)),
    }
}

fn unsigned_at(values: &Vec<SqlValue>, i: usize) -> (r: Result<u64, RowError>)
    ensures
        r == unsigned_in(values@, i as int),
{
    match integer_at(values, i) {
        Ok(n) => if n < 0 {
            Err(RowError::Negative(i))
        } else {
            Ok(n as u64)
        },
        Err(e) => Err(e),
    }
}

/// Whether `r` is what reading a row with the columns `values` gives: the
/// record that they hold, or what is wrong with the first column that is not
/// as it should be.
pub open spec fn reads_as(values: Seq<SqlValue>, r: Result<DownloadRecord, RowError>) -> bool {
    match r {
        Ok(record) => record_in(values) == Ok::<RecordView, RowError>(record@),
        Err(e) => record_in(values) == Err::<RecordView, RowError>(e),
    }
}

/// Whether `r` is what reading some row gives, a row of no more columns than
/// the table has.
pub open spec fn is_row_reading(r: Result<DownloadRecord, RowError>) -> bool {
    exists|values: Seq<SqlValue>| values.len() <= COLUMNS && #[trigger] reads_as(values, r)
}

/// Whether `e` can come of reading a row: it names one of the eleven columns,
/// and what it says is wrong is what can be wrong with that column.
pub open spec fn is_reading_error(e: RowError) -> bool {
    match e {
        RowError::Missing(i) => i < COLUMNS,
        RowError::NotText(i) => 1 <= i <= 6 || i == 10,
        RowError::NotInteger(i) => i == 0 || 7 <= i <= 9,
        RowError::Negative(i) => i == 0 || i == 7,
    }
}

/// A record that was read from a row has an identifier and a size that the
/// table can hold, and an error that came of reading a row is a reading
/// error.
pub proof fn lemma_row_reading(r: Result<DownloadRecord, RowError>)
    requires
        is_row_reading(r),
    ensures
        r matches Ok(record) ==> record.id <= i64::MAX && record.file_size <= i64::MAX,
        r matches Err(e) ==> is_reading_error(e),
{
    reveal_with_fuel(first_column_error, 12);
    let values = choose|values: Seq<SqlValue>| values.len() <= COLUMNS && #[trigger] reads_as(
        values,
        r,
    );
    assert(reads_as(values, r));
}

/// Reads the columns of one row as a record.
pub fn record_of_values(values: &Vec<SqlValue>) -> (r: Result<DownloadRecord, RowError>)
    ensures
        reads_as(values@, r),
{
    proof {
        reveal_with_fuel(first_column_error, 12);
    }
    let id = unsigned_at(values, 0)?;
    let file_url = text_at(values, 1)?;
    let file_name = text_at(values, 2)?;
    let file_type = text_at(values, 3)?;
    let extension = text_at(values, 4)?;
    let destination_dir = text_at(values, 5)?;
    let destination_path = text_at(values, 6)?;
    let file_size = unsigned_at(values, 7)?;
    let download_start_time = integer_at(values, 8)?;
    let download_stop_time = integer_at(values, 9)?;
    let download_status = text_at(values, 10)?;
    Ok(
        DownloadRecord {
            id,
            file_url,
            file_name,
            file_type,
            extension,
            destination_dir,
            destination_path,
            file_size,
            download_start_time,
            download_stop_time,
            download_status,
        },
    )
}

/// `rusqlite::Connection`, an open database. Nothing is known of what it holds.
#[verifier::external_type_specification]
#[verifier::external_body]
pub struct ExConnection(rusqlite::Connection);

/// `rusqlite::Error`, told apart by `failure_of`.
#[verifier::external_type_specification]
#[verifier::external_body]
pub struct ExSqlError(rusqlite::Error);

/// `rusqlite::Row`, one row of a running query, read by `value_at`.
#[verifier::external_type_specification]
#[verifier::external_body]
pub struct ExRow<'stmt>(rusqlite::Row<'stmt>);

/// `rusqlite::types::Value`, a value that owns its content, as it is bound to
/// a statement.
#[verifier::external_type_specification]
#[verifier::external_body]
pub struct ExValue(rusqlite::types::Value);

/// Tells the variants of `rusqlite::Error` apart: `QueryReturnedNoRows`,
/// `SqliteFailure` with its extended result code, and all the others.
/// Nothing is claimed of the result.
#[verifier::external_body]
fn failure_of(error: &rusqlite::Error) -> DbFailure {
    match error {
        rusqlite::Error::QueryReturnedNoRows => DbFailure::NoRows,
        rusqlite::Error::SqliteFailure(cause, _) => DbFailure::Sqlite(cause.extended_code),
        _ => DbFailure::Other,
    }
}

/// Makes the `rusqlite::types::Value` that holds what `param` holds.
/// Nothing is claimed of the result.
#[verifier::external_body]
fn bound_value(param: &SqlParam) -> rusqlite::types::Value {
    match param {
        SqlParam::Integer(n) => rusqlite::types::Value::Integer(*n),
        SqlParam::Text(t) => rusqlite::types::Value::Text(t.clone()),
    }
}

/// Calls `rusqlite::Row::get` for a `rusqlite::types::Value` and hands the
/// value on by its kind; `None` where the call says that the row has no such
/// column, and `Unreadable` for any other failure. The result depends on the
/// row, so nothing is claimed of it.
#[verifier::external_body]
fn value_at(row: &rusqlite::Row<'_>, index: usize) -> Option<SqlValue> {
    match row.get::<usize, rusqlite::types::Value>(index) {
        Ok(rusqlite::types::Value::Null) => Some(SqlValue::Null),
        Ok(rusqlite::types::Value::Integer(n)) => Some(SqlValue::Integer(n)),
        Ok(rusqlite::types::Value::Real(_)) => Some(SqlValue::Real),
        Ok(rusqlite::types::Value::Text(t)) => Some(SqlValue::Text(t)),
        Ok(rusqlite::types::Value::Blob(_)) => Some(SqlValue::Blob),
        Err(rusqlite::Error::InvalidColumnIndex(_)) => None,
        Err(_) => Some(SqlValue::Unreadable),
    }
}

/// Calls `rusqlite::Connection::execute` with `sql` and the values of
/// `params`, bound in their order. The result is what the database made of
/// the statement, so nothing is claimed of it.
#[verifier::external_body]
fn execute(conn: &rusqlite::Connection, sql: &str, params: &Vec<SqlParam>) -> Result<
    usize,
    rusqlite::Error,
> {
    conn.execute(sql, rusqlite::params_from_iter(params.iter().map(bound_value)))
}

/// Calls `rusqlite::Connection::last_insert_rowid`. The result depends on
/// what was inserted through the connection, so nothing is claimed of it.
#[verifier::external_body]
fn last_insert_rowid(conn: &rusqlite::Connection) -> i64 {
    conn.last_insert_rowid()
}

/// Calls `rusqlite::Connection::query_row` with `sql` and the values of
/// `params`, and reads the first row with `record_of_row`. Whether there is a
/// row, and what it holds, is the database's to say. Where the call gives
/// `Ok`, it gives what the function that it was handed made of the row: so
/// much is claimed, and no more.
#[verifier::external_body]
fn query_first(conn: &rusqlite::Connection, sql: &str, params: &Vec<SqlParam>) -> (r: Result<
    Result<DownloadRecord, RowError>,
    rusqlite::Error,
>)
    ensures
        r matches Ok(row) ==> is_row_reading(row),
{
    let values = rusqlite::params_from_iter(params.iter().map(bound_value));
    conn.query_row(sql, values, |row| Ok(record_of_row(row)))
}

/// Calls `rusqlite::Connection::prepare` and `rusqlite::Statement::query_map`
/// with `sql` and no parameters, reads each row with `record_of_row`, and
/// collects the rows in the order in which the database hands them out.
/// Which rows there are, and what they hold, is the database's to say. Each
/// item that comes back is what the function that was handed to `query_map`
/// made of a row: so much is claimed, and no more.
#[verifier::external_body]
fn query_all(conn: &rusqlite::Connection, sql: &str) -> (r: Result<
    Vec<Result<DownloadRecord, RowError>>,
    rusqlite::Error,
>)
    ensures
        r matches Ok(rows) ==> forall|i: int| 0 <= i < rows.len() ==> is_row_reading(#[trigger] rows[i]),
{
    let mut statement = conn.prepare(sql)?;
    let rows = statement.query_map([], |row| Ok(record_of_row(row)))?;
    rows.collect()
}

/// Reads a row of a running query as a record: it takes the columns in
/// their order, up to the first that the row does not have and eleven at
/// most, and reads what it took as `record_of_values` does.
fn record_of_row(row: &rusqlite::Row<'_>) -> (r: Result<DownloadRecord, RowError>)
    ensures
        is_row_reading(r),
{
    let mut values: Vec<SqlValue> = Vec::new();
    let mut i: usize = 0;
    while i < COLUMNS
        invariant
            i <= COLUMNS,
            values.len() == i,
        decreases COLUMNS - i,
    {
        match value_at(row, i) {
            Some(value) => {
                values.push(value);
            },
            None => {
                break ;
            },
        }
        i = i + 1;
    }
    let r = record_of_values(&values);
    assert(reads_as(values@, r));
    r
}

/// The error that the store reports for a failure of the database: a broken
/// `UNIQUE` or `PRIMARY KEY` constraint is a uniqueness violation, any other
/// refusal of SQLite keeps its code.
pub open spec fn store_error_of(failure: DbFailure) -> StoreError {
    match failure {
        DbFailure::Sqlite(code) => if code == SQLITE_CONSTRAINT_UNIQUE || code
            == SQLITE_CONSTRAINT_PRIMARYKEY {
            StoreError::UniqueViolation
        } else {
            StoreError::Sqlite(code)
        },
        DbFailure::NoRows => StoreError::Other,
        DbFailure::Other => StoreError::Other,
    }
}

/// The store's error for a failure of the database.
pub fn error_of_failure(failure: DbFailure) -> (e: StoreError)
    ensures
        e == store_error_of(failure),
{
    match failure {
        DbFailure::Sqlite(code) => if code == SQLITE_CONSTRAINT_UNIQUE || code
            == SQLITE_CONSTRAINT_PRIMARYKEY {
            StoreError::UniqueViolation
        } else {
            StoreError::Sqlite(code)
        },
        DbFailure::NoRows => StoreError::Other,
        DbFailure::Other => StoreError::Other,
    }
}

/// What a statement that returns no rows comes to: done, or the store's
/// error for the failure.
pub fn statement_outcome(answer: Result<usize, DbFailure>) -> (r: Result<(), StoreError>)
    ensures
        r == match answer {
            Ok(_) => Ok::<(), StoreError>(()),
            Err(failure) => Err::<(), StoreError>(store_error_of(failure)),
        },
{
    match answer {
        Ok(_) => Ok(()),
        Err(failure) => Err(error_of_failure(failure)),
    }
}

/// What a lookup by URL comes to. No row is no error: it is `None`. A row
/// that cannot be read is an error, and so is a record of another URL.
pub open spec fn lookup_result(
    url: Seq<char>,
    answer: Result<Result<DownloadRecord, RowError>, DbFailure>,
) -> Result<Option<DownloadRecord>, StoreError> {
    match answer {
        Ok(Ok(record)) => if record.file_url@ == url {
            Ok(Some(record))
        } else {
            Err(StoreError::Inconsistent)
        },
        Ok(Err(e)) => Err(StoreError::Row(e)),
        Err(DbFailure::NoRows) => Ok(None),
        Err(failure) => Err(store_error_of(failure)),
    }
}

/// Turns the database's answer to a lookup by URL into the store's.
pub fn lookup_outcome(url: &str, answer: Result<Result<DownloadRecord, RowError>, DbFailure>) -> (r:
    Result<Option<DownloadRecord>, StoreError>)
    ensures
        r == lookup_result(url@, answer),
{
    match answer {
        Ok(Ok(record)) => if same_text(record.file_url.as_str(), url) {
            Ok(Some(record))
        } else {
            Err(StoreError::Inconsistent)
        },
        Ok(Err(e)) => Err(StoreError::Row(e)),
        Err(DbFailure::NoRows) => Ok(None),
        Err(failure) => Err(error_of_failure(failure)),
    }
}

/// Whether the identifier of each record is less than that of the record
/// before it.
pub open spec fn steps_down(records: Seq<DownloadRecord>) -> bool {
    forall|k: int| 0 < k < records.len() ==> records[k - 1].id > #[trigger] records[k].id
}

/// Whether the identifiers of `records` go down from each record to every
/// later one.
pub open spec fn newest_first(records: Seq<DownloadRecord>) -> bool {
    forall|i: int, j: int| 0 <= i < j < records.len() ==> records[i].id > records[j].id
}

/// The first row of `rows` that could not be read, where there is one.
pub open spec fn first_unreadable(rows: Seq<Result<DownloadRecord, RowError>>) -> Option<RowError>
    decreases rows.len(),
{
    if rows.len() == 0 {
        None
    } else {
        match rows[0] {
            Err(e) => Some(e),
            Ok(_) => first_unreadable(rows.drop_first()),
        }
    }
}

/// What a listing comes to: the records in the order of the rows. A row that
/// cannot be read is an error, and so are rows whose identifiers do not go
/// down from each to the next.
pub open spec fn listing_result(rows: Seq<Result<DownloadRecord, RowError>>) -> Result<
    Seq<DownloadRecord>,
    StoreError,
> {
    match first_unreadable(rows) {
        Some(e) => Err(StoreError::Row(e)),
        None => {
            let records = Seq::new(rows.len(), |i: int| rows[i]->Ok_0);
            if newest_first(records) {
                Ok(records)
            } else {
                Err(StoreError::Inconsistent)
            }
        },
    }
}

/// The first unreadable row is one of the rows, and where there is none,
/// every row could be read.
proof fn lemma_first_unreadable(rows: Seq<Result<DownloadRecord, RowError>>)
    ensures
        match first_unreadable(rows) {
            Some(e) => exists|k: int|
                0 <= k < rows.len() && #[trigger] rows[k] == Err::<DownloadRecord, RowError>(e),
            None => forall|k: int| 0 <= k < rows.len() ==> #[trigger] rows[k] is Ok,
        },
    decreases rows.len(),
{
    if rows.len() > 0 {
        let rest = rows.drop_first();
        match rows[0] {
            Err(e) => {},
            Ok(_) => {
                lemma_first_unreadable(rest);
                match first_unreadable(rest) {
                    Some(e) => {
                        let k = choose|k: int|
                            0 <= k < rest.len() && #[trigger] rest[k] == Err::<
                                DownloadRecord,
                                RowError,
                            >(e);
                        assert(rows[k + 1] == rest[k]);
                    },
                    None => {
                        assert forall|k: int| 0 <= k < rows.len() implies #[trigger] rows[k] is Ok by {
                            if k > 0 {
                                assert(rows[k] == rest[k - 1]);
                            }
                        }
                    },
                }
            },
        }
    }
}

/// In a prefix without an unreadable row, the first unreadable row of the
/// whole is the first one behind the prefix.
proof fn lemma_first_unreadable_skips(rows: Seq<Result<DownloadRecord, RowError>>, n: int)
    requires
        0 <= n <= rows.len(),
        forall|i: int| 0 <= i < n ==> rows[i] is Ok,
    ensures
        first_unreadable(rows) == first_unreadable(rows.skip(n)),
    decreases n,
{
    if n > 0 {
        assert(rows[0] is Ok);
        let rest = rows.drop_first();
        assert forall|i: int| 0 <= i < n - 1 implies rest[i] is Ok by {
            assert(rest[i] == rows[i + 1]);
        }
        lemma_first_unreadable_skips(rest, n - 1);
        assert(rest.skip(n - 1) =~= rows.skip(n));
    } else {
        assert(rows.skip(0) =~= rows);
    }
}

/// Turns the rows that the database handed out into the store's listing.
pub fn listing_outcome(rows: &Vec<Result<DownloadRecord, RowError>>) -> (r: Result<
    Vec<DownloadRecord>,
    StoreError,
>)
    ensures
        match r {
            Ok(records) => listing_result(rows@) == Ok::<Seq<DownloadRecord>, StoreError>(records@),
            Err(e) => listing_result(rows@) == Err::<Seq<DownloadRecord>, StoreError>(e),
        },
{
    let mut records: Vec<DownloadRecord> = Vec::new();
    let mut ordered = true;
    let mut i: usize = 0;
    while i < rows.len()
        invariant
            i <= rows.len(),
            records.len() == i,
            forall|k: int| 0 <= k < i ==> rows[k] == Ok::<DownloadRecord, RowError>(records[k]),
            ordered == steps_down(records@),
        decreases rows.len() - i,
    {
        match &rows[i] {
            Ok(record) => {
                let ghost before = records@;
                if i > 0 && records[i - 1].id <= record.id {
                    ordered = false;
                }
                records.push(record.clone());
                proof {
                    let after = records@;
                    assert(after[i as int] == *record);
                    if steps_down(after) {
                        assert forall|k: int| 0 < k < before.len() implies before[k - 1].id
                            > #[trigger] before[k].id by {
                            assert(after[k - 1].id > after[k].id);
                        }
                        if i > 0 {
                            assert(after[i - 1].id > after[i as int].id);
                        }
                    }
                    if ordered {
                        assert forall|k: int| 0 < k < after.len() implies after[k - 1].id
                            > #[trigger] after[k].id by {
                            if k < before.len() {
                                assert(before[k - 1].id > before[k].id);
                            }
                        }
                    }
                }
            },
            Err(e) => {
                proof {
                    lemma_first_unreadable_skips(rows@, i as int);
                    assert(rows@.skip(i as int)[0] == rows@[i as int]);
                }
                return Err(StoreError::Row(*e));
            },
        }
        i = i + 1;
    }
    proof {
        lemma_first_unreadable_skips(rows@, rows.len() as int);
        let all = Seq::new(rows@.len(), |k: int| rows@[k]->Ok_0);
        assert(all =~= records@);
        if ordered {
            lemma_steps_down(records@);
        } else {
            let k = choose|k: int|
                0 < k < records@.len() && !(records@[k - 1].id > #[trigger] records@[k].id);
            assert(!(records@[k - 1].id > records@[k].id));
        }
    }
    if ordered {
        Ok(records)
    } else {
        Err(StoreError::Inconsistent)
    }
}

/// Identifiers that go down from each record to its neighbour go down from
/// each record to every later one.
proof fn lemma_steps_down(records: Seq<DownloadRecord>)
    requires
        steps_down(records),
    ensures
        newest_first(records),
{
    assert forall|i: int, j: int| 0 <= i < j < records.len() implies records[i].id
        > records[j].id by {
        lemma_reaches_down(records, i, j);
    }
}

proof fn lemma_reaches_down(records: Seq<DownloadRecord>, i: int, j: int)
    requires
        steps_down(records),
        0 <= i < j < records.len(),
    ensures
        records[i].id > records[j].id,
    decreases j - i,
{
    if i + 1 < j {
        lemma_reaches_down(records, i, j - 1);
    }
    assert(records[j - 1].id > records[j].id);
}

/// A statement for the database: its text, and the values for its
/// placeholders in their order.
#[derive(Debug)]
pub struct Statement {
    pub sql: &'static str,
    pub params: Vec<SqlParam>,
}

/// Creates the table of downloads where the database does not have it: the
/// identifier is assigned by the database, and no two rows have the same URL
/// or the same destination path.
pub const CREATE_TABLE_SQL: &'static str =
    "CREATE TABLE IF NOT EXISTS download_record (
    id                  INTEGER PRIMARY KEY AUTOINCREMENT,
    file_url            TEXT NOT NULL UNIQUE,
    file_name           TEXT NOT NULL,
    file_type           TEXT NOT NULL,
    extension           TEXT NOT NULL,
    destination_dir     TEXT NOT NULL,
    destination_path    TEXT NOT NULL UNIQUE,
    file_size           INTEGER NULL,
    download_start_time INTEGER NOT NULL,
    download_stop_time  INTEGER NULL,
    download_status     TEXT NOT NULL
)";

/// Asks for all rows, the one with the greatest identifier first.
pub const LIST_SQL: &'static str =
    "SELECT id, file_url, file_name, file_type, extension, destination_dir, destination_path, file_size, download_start_time, download_stop_time, download_status FROM download_record ORDER BY id DESC";

/// Asks for one row with the URL that is bound to the one placeholder.
pub const LOOKUP_SQL: &'static str =
    "SELECT id, file_url, file_name, file_type, extension, destination_dir, destination_path, file_size, download_start_time, download_stop_time, download_status FROM download_record WHERE file_url = ?1 LIMIT 1";

/// Adds a row with the ten values that are bound, in the order of the
/// table's columns behind the identifier.
pub const INSERT_SQL: &'static str =
    "INSERT INTO download_record (file_url, file_name, file_type, extension, destination_dir, destination_path, file_size, download_start_time, download_stop_time, download_status) VALUES (?1, ?2, ?3, ?4, ?5, ?6, ?7, ?8, ?9, ?10)";

/// Sets the state to the first value and the stop time to the second, in
/// the row whose identifier is the third.
pub const UPDATE_SQL: &'static str =
    "UPDATE download_record SET download_status = ?1, download_stop_time = ?2 WHERE id = ?3";

/// Removes the row whose identifier is the one value.
pub const DELETE_SQL: &'static str = "DELETE FROM download_record WHERE id = ?1";

/// Whether `param` is a text with the characters `t`.
pub open spec fn is_text(param: SqlParam, t: Seq<char>) -> bool {
    param matches SqlParam::Text(s) && s@ == t
}

/// Whether `params` are the ten values that are stored for `record`, in the
/// order of the table's columns behind the identifier, which the store
/// assigns itself.
pub open spec fn binds_record(params: Seq<SqlParam>, record: RecordView) -> bool {
    &&& params.len() == 10
    &&& is_text(params[0], record.file_url)
    &&& is_text(params[1], record.file_name)
    &&& is_text(params[2], record.file_type)
    &&& is_text(params[3], record.extension)
    &&& is_text(params[4], record.destination_dir)
    &&& is_text(params[5], record.destination_path)
    &&& params[6] == SqlParam::Integer(record.file_size as i64)
    &&& params[7] == SqlParam::Integer(record.download_start_time)
    &&& params[8] == SqlParam::Integer(record.download_stop_time)
    &&& is_text(params[9], record.download_status)
}

/// The values that are stored for `record`. A size over `i64::MAX` cannot be
/// stored.
pub fn insert_params(record: &DownloadRecord) -> (r: Result<Vec<SqlParam>, StoreError>)
    ensures
        match r {
            Ok(params) => record.file_size <= i64::MAX && binds_record(params@, record@),
            Err(e) => record.file_size > i64::MAX && e == StoreError::ValueOutOfRange,
        },
{
    if record.file_size > 0x7fff_ffff_ffff_ffff {
        return Err(StoreError::ValueOutOfRange);
    }
    let mut params: Vec<SqlParam> = Vec::new();
    params.push(SqlParam::Text(record.file_url.clone()));
    params.push(SqlParam::Text(record.file_name.clone()));
    params.push(SqlParam::Text(record.file_type.clone()));
    params.push(SqlParam::Text(record.extension.clone()));
    params.push(SqlParam::Text(record.destination_dir.clone()));
    params.push(SqlParam::Text(record.destination_path.clone()));
    params.push(SqlParam::Integer(record.file_size as i64));
    params.push(SqlParam::Integer(record.download_start_time));
    params.push(SqlParam::Integer(record.download_stop_time));
    params.push(SqlParam::Text(record.download_status.clone()));
    Ok(params)
}

/// The statement that creates the table: it binds nothing.
pub fn schema_statement() -> (r: Statement)
    ensures
        r.sql@ == CREATE_TABLE_SQL@,
        r.params@.len() == 0,
{
    Statement { sql: CREATE_TABLE_SQL, params: Vec::new() }
}

/// The statement that lists all records: it binds nothing.
pub fn listing_statement() -> (r: Statement)
    ensures
        r.sql@ == LIST_SQL@,
        r.params@.len() == 0,
{
    Statement { sql: LIST_SQL, params: Vec::new() }
}

/// The statement that looks `url` up: it binds `url`, as it is.
pub fn lookup_statement(url: &str) -> (r: Statement)
    ensures
        r.sql@ == LOOKUP_SQL@,
        r.params@.len() == 1,
        is_text(r.params@[0], url@),
{
    let mut params: Vec<SqlParam> = Vec::new();
    params.push(SqlParam::Text(String::from_str(url)));
    Statement { sql: LOOKUP_SQL, params }
}

/// The statement that stores `record`. A size over `i64::MAX` cannot be
/// stored, and is the only thing that stands against a statement.
pub fn insert_statement(record: &DownloadRecord) -> (r: Result<Statement, StoreError>)
    ensures
        match r {
            Ok(statement) => record.file_size <= i64::MAX && statement.sql@ == INSERT_SQL@
                && binds_record(statement.params@, record@),
            Err(e) => record.file_size > i64::MAX && e == StoreError::ValueOutOfRange,
        },
{
    let params = insert_params(record)?;
    Ok(Statement { sql: INSERT_SQL, params })
}

/// The statement that sets the state of the row `id` to `download_status`
/// and its stop time to `download_stop_time`. An identifier over `i64::MAX`
/// is the identifier of no row, and there is no statement for it.
pub fn update_statement(id: u64, download_status: &str, download_stop_time: i64) -> (r: Option<
    Statement,
>)
    ensures
        match r {
            Some(statement) => {
                &&& id <= i64::MAX
                &&& statement.sql@ == UPDATE_SQL@
                &&& statement.params@.len() == 3
                &&& is_text(statement.params@[0], download_status@)
                &&& statement.params@[1] == SqlParam::Integer(download_stop_time)
                &&& statement.params@[2] == SqlParam::Integer(id as i64)
            },
            None => id > i64::MAX,
        },
{
    if id > 0x7fff_ffff_ffff_ffff {
        return None;
    }
    let mut params: Vec<SqlParam> = Vec::new();
    params.push(SqlParam::Text(String::from_str(download_status)));
    params.push(SqlParam::Integer(download_stop_time));
    params.push(SqlParam::Integer(id as i64));
    Some(Statement { sql: UPDATE_SQL, params })
}

/// The statement that removes the row `id`.
pub fn delete_statement(id: i64) -> (r: Statement)
    ensures
        r.sql@ == DELETE_SQL@,
        r.params@ =~= seq![SqlParam::Integer(id)],
{
    let mut params: Vec<SqlParam> = Vec::new();
    params.push(SqlParam::Integer(id));
    Statement { sql: DELETE_SQL, params }
}

/// The identifier that stands for a row number of the table: row numbers
/// start at 1, and anything below is no identifier.
pub fn identifier_of(rowid: i64) -> (r: Result<u64, StoreError>)
    ensures
        r == if rowid >= 1 {
            Ok::<u64, StoreError>(rowid as u64)
        } else {
            Err::<u64, StoreError>(StoreError::Inconsistent)
        },
{
    if rowid >= 1 {
        Ok(rowid as u64)
    } else {
        Err(StoreError::Inconsistent)
    }
}

/// Whether `e` is the store's error for some failure of the database.
pub open spec fn is_database_error(e: StoreError) -> bool {
    exists|failure: DbFailure| e == #[trigger] store_error_of(failure)
}

/// The path of the database file: `yad.db` in the configuration directory.
pub fn db_path(cfg: &Config) -> (r: String)
    ensures
        r@ == joined(cfg.config_dir@, "yad.db"@),
{
    join_path(cfg.config_dir.as_str(), "yad.db")
}

/// Hands `statement` to the database and says how it went: the number of
/// rows that changed, or how the database failed.
fn run(conn: &rusqlite::Connection, statement: &Statement) -> (r: Result<usize, DbFailure>) {
    match execute(conn, statement.sql, &statement.params) {
        Ok(changed) => Ok(changed),
        Err(error) => Err(failure_of(&error)),
    }
}

/// Creates the table of downloads unless the database has it already, with
/// `schema_statement`.
pub fn create_table(conn: &rusqlite::Connection) -> (r: Result<(), StoreError>)
    ensures
        r matches Err(e) ==> is_database_error(e),
{
    let statement = schema_statement();
    statement_outcome(run(conn, &statement))
}

/// All stored records, the one with the greatest identifier first, asked for
/// with `listing_statement`.
///
/// What comes back is the database's: on success the records are those that
/// it handed out, each read from a row, and their identifiers go down from
/// each to the next. A row that cannot be read ends the listing with what is
/// wrong with it.
pub fn read_download_records(conn: &rusqlite::Connection) -> (r: Result<
    Vec<DownloadRecord>,
    StoreError,
>)
    ensures
        r matches Ok(records) ==> newest_first(records@) && forall|i: int|
            0 <= i < records.len() ==> is_row_reading(
                Ok::<DownloadRecord, RowError>(#[trigger] records[i]),
            ),
        r matches Err(e) ==> is_database_error(e) || e == StoreError::Inconsistent || (e matches StoreError::Row(
            cause,
        ) && is_row_reading(Err::<DownloadRecord, RowError>(cause))),
{
    create_table(conn)?;
    let statement = listing_statement();
    match query_all(conn, statement.sql) {
        Ok(rows) => {
            proof {
                lemma_first_unreadable(rows@);
            }
            listing_outcome(&rows)
        },
        Err(error) => Err(error_of_failure(failure_of(&error))),
    }
}

/// The stored record of `url`, or `None` where the store has none, asked for
/// with `lookup_statement`.
///
/// What comes back is the database's: a record that is handed out was read
/// from a row and is a record of `url`. A row that cannot be read comes back
/// as what is wrong with it.
pub fn search_by_url(url: &str, conn: &rusqlite::Connection) -> (r: Result<
    Option<DownloadRecord>,
    StoreError,
>)
    ensures
        r matches Ok(Some(record)) ==> record.file_url@ == url@ && is_row_reading(
            Ok::<DownloadRecord, RowError>(record),
        ),
        r matches Err(e) ==> is_database_error(e) || e == StoreError::Inconsistent || (e matches StoreError::Row(
            cause,
        ) && is_row_reading(Err::<DownloadRecord, RowError>(cause))),
{
    create_table(conn)?;
    let statement = lookup_statement(url);
    let answer = match query_first(conn, statement.sql, &statement.params) {
        Ok(row) => Ok(row),
        Err(error) => Err(failure_of(&error)),
    };
    lookup_outcome(url, answer)
}

/// Stores `record` as a new row, with `insert_statement`, and returns the
/// identifier that the store assigned to it; the identifier of `record`
/// itself is not stored.
///
/// A size over `i64::MAX` is refused before the database is touched. Whether
/// the row is taken is the database's to say: it refuses a URL or a
/// destination path that is stored already, which comes back as
/// `StoreError::UniqueViolation`.
pub fn insert_record(record: &DownloadRecord, conn: &rusqlite::Connection) -> (r: Result<
    u64,
    StoreError,
>)
    ensures
        record.file_size > i64::MAX <==> r == Err::<u64, StoreError>(StoreError::ValueOutOfRange),
        r matches Ok(id) ==> 1 <= id <= i64::MAX,
        r matches Err(e) ==> is_database_error(e) || e == StoreError::Inconsistent || e
            == StoreError::ValueOutOfRange,
{
    let statement = insert_statement(record)?;
    create_table(conn)?;
    statement_outcome(run(conn, &statement))?;
    identifier_of(last_insert_rowid(conn))
}

/// Sets the state and the stop time of the row with the identifier `id`,
/// with `update_statement`. The duration is not stored: it is the time
/// between the two timestamps of the row. Where no row has the identifier,
/// nothing changes; an identifier over `i64::MAX` is the identifier of no
/// row, and the database is not asked.
pub fn update_download_record(
    id: u64,
    download_status: &str,
    download_stop_time: i64,
    download_duration: i64,
    conn: &rusqlite::Connection,
) -> (r: Result<(), StoreError>)
    ensures
        id > i64::MAX ==> r == Ok::<(), StoreError>(()),
        r matches Err(e) ==> is_database_error(e),
{
    let _ = download_duration;
    match update_statement(id, download_status, download_stop_time) {
        Some(statement) => {
            create_table(conn)?;
            statement_outcome(run(conn, &statement))
        },
        None => Ok(()),
    }
}

/// Removes the row with the identifier `id`, with `delete_statement`. Where
/// no row has it, nothing changes.
pub fn delete_record(id: i64, conn: &rusqlite::Connection) -> (r: Result<(), StoreError>)
    ensures
        r matches Err(e) ==> is_database_error(e),
{
    create_table(conn)?;
    let statement = delete_statement(id);
    statement_outcome(run(conn, &statement))
}

} // verus!
