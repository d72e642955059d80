//! The transcription history, kept in an SQLite database in the data
//! directory.
use vstd::prelude::*;

use chrono::{DateTime, Utc};
use std::time::{Duration, SystemTime, SystemTimeError, UNIX_EPOCH};
use rusqlite::{Connection, Params, Row, RowIndex, Rows, Statement};
use rusqlite::types::FromSql;
use rusqlite_migration::{Migrations, M};
use vstd::string::to_string_from_display_ensures;

use crate::text::{join_path, path_join, PathStyle};

verus! {

#[verifier::external_type_specification]
#[verifier::external_body]
pub struct ExConnection(Connection);

#[verifier::external_type_specification]
#[verifier::external_body]
pub struct ExStatement<'conn>(Statement<'conn>);

#[verifier::external_type_specification]
#[verifier::external_body]
pub struct ExRows<'stmt>(Rows<'stmt>);

#[verifier::external_type_specification]
#[verifier::external_body]
pub struct ExRow<'stmt>(Row<'stmt>);

#[verifier::external_type_specification]
#[verifier::external_body]
pub struct ExSqliteError(rusqlite::Error);

#[verifier::external_type_specification]
#[verifier::external_body]
pub struct ExMigration<'u>(M<'u>);

#[verifier::external_type_specification]
#[verifier::external_body]
pub struct ExMigrations<'m>(Migrations<'m>);

#[verifier::external_type_specification]
#[verifier::external_body]
pub struct ExMigrationError(rusqlite_migration::Error);


/// `rusqlite::Connection::open`: opens (creating if needed) the database
/// file at `path`. Whether it succeeds depends on the file system, so
/// nothing is claimed of the result.
pub assume_specification<P: AsRef<std::path::Path>>[ Connection::open::<P> ](path: P) -> Result<Connection, rusqlite::Error>;

/// `rusqlite::Connection::execute`: runs one SQL statement with `params`
/// bound. What it does and whether it succeeds depend on the database, so
/// nothing is claimed of the result.
pub assume_specification<P: Params>[ Connection::execute::<P> ](conn: &Connection, sql: &str, params: P) -> Result<usize, rusqlite::Error>;

/// `rusqlite::Connection::last_insert_rowid`: the row id of the most recent
/// successful insert on `conn`. It depends on the database, so nothing is
/// claimed of it.
pub assume_specification[ Connection::last_insert_rowid ](conn: &Connection) -> i64;

/// `rusqlite::Connection::prepare`: compiles `sql` against the database.
/// Whether it succeeds depends on the database, so nothing is claimed.
pub assume_specification<'a>[ Connection::prepare ](conn: &'a Connection, sql: &str) -> Result<Statement<'a>, rusqlite::Error>;

/// `rusqlite::Statement::query`: runs the prepared statement. Nothing is
/// claimed of the result.
pub assume_specification<'conn, 'b, P: Params>[ Statement::<'conn>::query::<P> ](stmt: &'b mut Statement<'conn>, params: P) -> Result<Rows<'b>, rusqlite::Error>;

/// `rusqlite::Rows::next`: the next row of a query's result, if any. It
/// depends on the database, so nothing is claimed.
pub assume_specification<'stmt, 'b>[ Rows::<'stmt>::next ](rows: &'b mut Rows<'stmt>) -> Result<Option<&'b Row<'stmt>>, rusqlite::Error>;

/// `rusqlite::Row::get`: column `idx` of a row, converted to `T`. It
/// depends on the database, so nothing is claimed.
pub assume_specification<'stmt, I: RowIndex, T: FromSql>[ Row::<'stmt>::get::<I, T> ](row: &Row<'stmt>, idx: I) -> Result<T, rusqlite::Error>;

/// `rusqlite_migration::M::up`: a migration that runs `sql`. Nothing about
/// the opaque value is claimed.
pub assume_specification<'u>[ M::<'u>::up ](sql: &'u str) -> M<'u>;

/// `rusqlite_migration::Migrations::new`: the list of migrations `ms`.
/// Nothing about the opaque value is claimed.
pub assume_specification<'m>[ Migrations::<'m>::new ](ms: Vec<M<'m>>) -> Migrations<'m>;

/// `rusqlite_migration::Migrations::to_latest`: applies the migrations the
/// database has not had yet. It depends on the database, so nothing is
/// claimed of the result.
pub assume_specification<'m>[ Migrations::<'m>::to_latest ](ms: &Migrations<'m>, conn: &mut Connection) -> Result<(), rusqlite_migration::Error>;

/// The migration that creates the history table.
pub open spec fn schema_text() -> Seq<char> {
    "CREATE TABLE IF NOT EXISTS transcriptions (
        id INTEGER PRIMARY KEY AUTOINCREMENT,
        text TEXT NOT NULL,
        model TEXT NOT NULL,
        timestamp INTEGER NOT NULL,
        duration_ms INTEGER
    );"@
}

/// The statement that reads every entry, newest first.
pub open spec fn select_entries_text() -> Seq<char> {
    "SELECT id, text, model, timestamp, duration_ms FROM transcriptions ORDER BY timestamp DESC"@
}

/// The statement that stores one entry; its parameters are the text, the
/// model, the timestamp and the duration, in that order.
pub open spec fn insert_entry_text() -> Seq<char> {
    "INSERT INTO transcriptions (text, model, timestamp, duration_ms) VALUES (?1, ?2, ?3, ?4)"@
}

/// The statement that removes the entry whose id is its one parameter.
pub open spec fn delete_entry_text() -> Seq<char> {
    "DELETE FROM transcriptions WHERE id = ?1"@
}

/// The statement that removes every entry.
pub open spec fn clear_entries_text() -> Seq<char> {
    "DELETE FROM transcriptions"@
}

/// The migration that creates the history table.
pub fn schema_sql() -> (s: &'static str)
    ensures
        s@ == schema_text(),
{
    "CREATE TABLE IF NOT EXISTS transcriptions (
        id INTEGER PRIMARY KEY AUTOINCREMENT,
        text TEXT NOT NULL,
        model TEXT NOT NULL,
        timestamp INTEGER NOT NULL,
        duration_ms INTEGER
    );"
}

/// The statement that reads every entry, newest first.
pub fn select_entries_sql() -> (s: &'static str)
    ensures
        s@ == select_entries_text(),
{
    "SELECT id, text, model, timestamp, duration_ms FROM transcriptions ORDER BY timestamp DESC"
}

/// The statement that stores one entry.
pub fn insert_entry_sql() -> (s: &'static str)
    ensures
        s@ == insert_entry_text(),
{
    "INSERT INTO transcriptions (text, model, timestamp, duration_ms) VALUES (?1, ?2, ?3, ?4)"
}

/// The statement that removes one entry by id.
pub fn delete_entry_sql() -> (s: &'static str)
    ensures
        s@ == delete_entry_text(),
{
    "DELETE FROM transcriptions WHERE id = ?1"
}

/// The statement that removes every entry.
pub fn clear_entries_sql() -> (s: &'static str)
    ensures
        s@ == clear_entries_text(),
{
    "DELETE FROM transcriptions"
}

/// One transcription in the history.
#[derive(Clone, Debug)]
pub struct HistoryEntry {
    pub id: i64,
    pub text: String,
    pub model: String,
    pub timestamp: i64,
    pub duration_ms: Option<i64>,
}

/// Why a history operation failed.
#[derive(Debug)]
pub enum HistoryError {
    /// SQLite refused to open the database or to run a statement.
    Database(rusqlite::Error),
    /// The schema could not be brought up to date.
    Migration(rusqlite_migration::Error),
    /// The system clock reads a time before the Unix epoch.
    ClockBeforeEpoch,
}

/// The message of `HistoryError::ClockBeforeEpoch`.
pub open spec fn clock_error_text() -> Seq<char> {
    "system time before Unix epoch"@
}

/// Whether `text` is the message of `e`, as its `Display` gives it.
pub open spec fn is_error_text(e: HistoryError, text: String) -> bool {
    match e {
        HistoryError::Database(d) => to_string_from_display_ensures::<rusqlite::Error>(&d, text),
        HistoryError::Migration(m) => to_string_from_display_ensures::<rusqlite_migration::Error>(
            &m,
            text,
        ),
        HistoryError::ClockBeforeEpoch => text@ == clock_error_text(),
    }
}

impl HistoryError {
    /// The message of the error.
    pub fn message(&self) -> (r: String)
        ensures
            is_error_text(*self, r),
    {
        match self {
            HistoryError::Database(e) => e.to_string(),
            HistoryError::Migration(e) => e.to_string(),
            HistoryError::ClockBeforeEpoch => String::from_str("system time before Unix epoch"),
        }
    }
}

/// The history database inside a data directory.
pub struct HistoryManager {
    db_path: String,
}

/// The name of the history database file.
pub open spec fn db_file_name() -> Seq<char> {
    "history.db"@
}

fn database_error<T>(r: Result<T, rusqlite::Error>) -> (out: Result<T, HistoryError>)
    ensures
        match r {
            Ok(v) => out == Ok::<T, HistoryError>(v),
            Err(e) => out == Err::<T, HistoryError>(HistoryError::Database(e)),
        },
{
    match r {
        Ok(v) => Ok(v),
        Err(e) => Err(HistoryError::Database(e)),
    }
}

#[verifier::external_type_specification]
#[verifier::external_body]
pub struct ExSystemTime(SystemTime);

#[verifier::external_type_specification]
#[verifier::external_body]
pub struct ExSystemTimeError(SystemTimeError);

/// `std::time::SystemTime::now`: the system clock. It depends on the
/// clock, so nothing is claimed.
pub assume_specification[ SystemTime::now ]() -> SystemTime;

/// `std::time::UNIX_EPOCH`, an opaque time; nothing is claimed of it.
#[verifier::external_body]
fn unix_epoch() -> SystemTime {
    UNIX_EPOCH
}

/// `std::time::SystemTime::duration_since`: the time elapsed from
/// `earlier` to `t`, an error when `earlier` is later. It depends on the
/// clock, so nothing is claimed.
pub assume_specification[ SystemTime::duration_since ](t: &SystemTime, earlier: SystemTime) -> Result<Duration, SystemTimeError>;

/// `std::time::Duration::as_secs`: the whole seconds of a duration.
/// Nothing is claimed of the opaque duration.
pub assume_specification[ Duration::as_secs ](d: &Duration) -> u64;

/// `std::time::Duration::subsec_nanos`: the fractional part of a duration
/// in nanoseconds, which the documentation states is less than one billion.
pub assume_specification[ Duration::subsec_nanos ](d: &Duration) -> (r: u32)
    ensures
        r < 1_000_000_000,
;

/// `chrono::DateTime::<Utc>::from_timestamp(secs, nsecs)`, read back with
/// `DateTime::timestamp`. From the chrono source: `from_timestamp` is
/// `None` when the time is out of chrono's range or `nsecs` is not a valid
/// fraction, and `timestamp` gives back the seconds it was made from.
#[verifier::external_body]
fn utc_timestamp(secs: i64, nsecs: u32) -> (r: Option<i64>)
    ensures
        r matches Some(t) ==> t == secs,
{
    match DateTime::<Utc>::from_timestamp(secs, nsecs) {
        Some(t) => Some(t.timestamp()),
        None => None,
    }
}

/// The current time in whole seconds since the Unix epoch, read as
/// `chrono::Utc::now` reads it: the system clock measured from the epoch,
/// made a `DateTime<Utc>`. Where `Utc::now` would panic (a clock before the
/// epoch, or a time chrono cannot represent) the result is `None`.
fn unix_now() -> (r: Option<i64>)
    ensures
        r matches Some(t) ==> t >= 0,
{
    let now = SystemTime::now();
    match now.duration_since(unix_epoch()) {
        Ok(d) => {
            let secs = d.as_secs();
            if secs > 0x7fff_ffff_ffff_ffff {
                return None;
            }
            utc_timestamp(secs as i64, d.subsec_nanos())
        },
        Err(_) => None,
    }
}

/// A row of the history table, in the column order of the SELECT
/// statement: id, text, model, timestamp, duration in milliseconds.
pub open spec fn entry_of_row(row: (i64, String, String, i64, Option<i64>)) -> HistoryEntry {
    HistoryEntry { id: row.0, text: row.1, model: row.2, timestamp: row.3, duration_ms: row.4 }
}

/// The entries that the rows `rows` stand for, in the same order.
pub fn entries_from_rows(rows: &Vec<(i64, String, String, i64, Option<i64>)>) -> (v: Vec<
    HistoryEntry,
>)
    ensures
        v@.len() == rows@.len(),
        forall|i: int| 0 <= i < rows@.len() ==> #[trigger] v@[i] == entry_of_row(rows@[i]),
{
    let mut v: Vec<HistoryEntry> = Vec::new();
    let mut i: usize = 0;
    while i < rows.len()
        invariant
            i <= rows@.len(),
            v@.len() == i,
            forall|j: int| 0 <= j < i ==> #[trigger] v@[j] == entry_of_row(rows@[j]),
        decreases rows@.len() - i,
    {
        let row = &rows[i];
        v.push(
            HistoryEntry {
                id: row.0,
                text: row.1.clone(),
                model: row.2.clone(),
                timestamp: row.3,
                duration_ms: row.4,
            },
        );
        i = i + 1;
    }
    v
}

/// Whether `rows` run from the newest timestamp to the oldest.
pub open spec fn is_newest_first(rows: Seq<(i64, String, String, i64, Option<i64>)>) -> bool {
    forall|i: int, j: int| 0 <= i < j < rows.len() ==> #[trigger] rows[i].3 >= #[trigger] rows[j].3
}

/// `rows` in newest-first order of their timestamps, rows with equal
/// timestamps keeping their order. Rows that already come newest first, as
/// the SELECT statement's `ORDER BY timestamp DESC` gives them, come back
/// unchanged.
pub fn newest_first(rows: Vec<(i64, String, String, i64, Option<i64>)>) -> (out: Vec<
    (i64, String, String, i64, Option<i64>),
>)
    ensures
        out@.to_multiset() == rows@.to_multiset(),
        is_newest_first(out@),
        is_newest_first(rows@) ==> out@ == rows@,
{
    let ghost orig = rows@;
    let mut rest = rows;
    let mut out: Vec<(i64, String, String, i64, Option<i64>)> = Vec::new();
    let ghost mut k: int = 0;
    assert(orig.take(0) =~= Seq::<(i64, String, String, i64, Option<i64>)>::empty());
    assert(orig.skip(0) =~= orig);
    while rest.len() > 0
        invariant
            0 <= k <= orig.len(),
            rest@ == orig.skip(k),
            is_newest_first(out@),
            out@.to_multiset() == orig.take(k).to_multiset(),
            is_newest_first(orig) ==> out@ == orig.take(k),
        decreases rest@.len(),
    {
        let x = rest.remove(0);
        assert(x == orig[k]);
        let ts = x.3;
        let mut p: usize = 0;
        while p < out.len() && out[p].3 >= ts
            invariant
                p <= out@.len(),
                forall|i: int| 0 <= i < p ==> #[trigger] out@[i].3 >= ts,
            decreases out@.len() - p,
        {
            p = p + 1;
        }
        let ghost before = out@;
        proof {
            assert forall|i: int| p <= i < before.len() implies #[trigger] before[i].3 < ts by {
                assert(before[p as int].3 < ts);
                if i > p {
                    assert(before[p as int].3 >= before[i].3);
                }
            }
            if is_newest_first(orig) {
                assert forall|i: int| 0 <= i < before.len() implies #[trigger] before[i].3 >= ts by {
                    assert(before[i] == orig[i]);
                    assert(orig[i].3 >= orig[k].3);
                }
                assert(p == before.len());
            }
        }
        out.insert(p, x);
        proof {
            let after = out@;
            assert forall|i: int, j: int| 0 <= i < j < after.len() implies #[trigger] after[i].3
                >= #[trigger] after[j].3 by {
                if j < p {
                    assert(after[i] == before[i] && after[j] == before[j]);
                } else if j == p {
                    assert(after[i] == before[i]);
                } else if i < p {
                    assert(after[i] == before[i] && after[j] == before[j - 1]);
                } else if i == p {
                    assert(after[j] == before[j - 1]);
                } else {
                    assert(after[i] == before[i - 1] && after[j] == before[j - 1]);
                }
            }
            assert(orig.take(k + 1) =~= orig.take(k).push(orig[k]));
            assert(after == before.insert(p as int, x));
            vstd::seq_lib::to_multiset_insert(before, p as int, x);
            vstd::seq_lib::to_multiset_build(orig.take(k), orig[k]);
            assert(orig.skip(k + 1) =~= orig.skip(k).remove(0));
            if is_newest_first(orig) {
                assert(after =~= orig.take(k + 1));
            }
            k = k + 1;
        }
    }
    proof {
        assert(orig.take(k) =~= orig);
    }
    out
}

/// The entry that an insert of `text`, `model`, `timestamp` and
/// `duration_ms` made, given the row id SQLite gave it.
pub fn inserted_entry(
    rowid: i64,
    text: &str,
    model: &str,
    timestamp: i64,
    duration_ms: Option<i64>,
) -> (e: HistoryEntry)
    ensures
        e.id == rowid,
        e.text@ == text@,
        e.model@ == model@,
        e.timestamp == timestamp,
        e.duration_ms == duration_ms,
{
    HistoryEntry {
        id: rowid,
        text: String::from_str(text),
        model: String::from_str(model),
        timestamp,
        duration_ms,
    }
}

impl HistoryManager {
    /// The path of the database file.
    pub closed spec fn path(&self) -> Seq<char> {
        self.db_path@
    }

    /// Opens the history database in `data_dir`, which must exist, and
    /// brings its schema up to date; paths are written in `style`.
    pub fn new(data_dir: &str, style: PathStyle) -> (r: Result<Self, HistoryError>)
        ensures
            r matches Ok(m) ==> m.path() == path_join(data_dir@, db_file_name(), style),
    {
        let name = "history.db";
        proof {
            reveal_strlit("history.db");
        }
        let db_path = join_path(data_dir, name, style);
        let mut conn = match database_error(Connection::open(db_path.as_str())) {
            Ok(c) => c,
            Err(e) => return Err(e),
        };
        let migrations = Migrations::new(vec![M::up(schema_sql())]);
        match migrations.to_latest(&mut conn) {
            Ok(()) => {},
            Err(e) => return Err(HistoryError::Migration(e)),
        }
        Ok(HistoryManager { db_path })
    }

    /// The path of the database file.
    pub fn db_path(&self) -> (r: &str)
        ensures
            r@ == self.path(),
    {
        self.db_path.as_str()
    }

    fn conn(&self) -> (r: Result<Connection, HistoryError>)
        ensures
            r matches Err(e) ==> e is Database,
    {
        database_error(Connection::open(self.db_path.as_str()))
    }

    /// Records a transcription made now, and returns it with the id the
    /// database gave it.
    pub fn add_entry(&self, text: &str, model: &str, duration_ms: Option<i64>) -> (r: Result<
        HistoryEntry,
        HistoryError,
    >)
        ensures
            r matches Ok(e) ==> e.text@ == text@ && e.model@ == model@ && e.duration_ms
                == duration_ms && e.timestamp >= 0,
            r matches Err(e) ==> e is Database || e is ClockBeforeEpoch,
    {
        let conn = match self.conn() {
            Ok(c) => c,
            Err(e) => return Err(e),
        };
        let timestamp = match unix_now() {
            Some(t) => t,
            None => return Err(HistoryError::ClockBeforeEpoch),
        };
        match database_error(
            conn.execute(insert_entry_sql(), (text, model, timestamp, duration_ms)),
        ) {
            Ok(_) => {},
            Err(e) => return Err(e),
        }
        let rowid = conn.last_insert_rowid();
        Ok(inserted_entry(rowid, text, model, timestamp, duration_ms))
    }

    /// All recorded transcriptions, newest first.
    pub fn get_entries(&self) -> (r: Result<Vec<HistoryEntry>, HistoryError>)
        ensures
            r matches Err(e) ==> e is Database,
            r matches Ok(v) ==> forall|i: int, j: int|
                0 <= i < j < v@.len() ==> #[trigger] v@[i].timestamp >= #[trigger] v@[j].timestamp,
    {
        let conn = match self.conn() {
            Ok(c) => c,
            Err(e) => return Err(e),
        };
        match database_error(read_rows(&conn)) {
            Ok(rows) => {
                let sorted = newest_first(rows);
                let v = entries_from_rows(&sorted);
                assert forall|i: int, j: int| 0 <= i < j < v@.len() implies #[trigger] v@[i].timestamp
                    >= #[trigger] v@[j].timestamp by {
                    assert(v@[i] == entry_of_row(sorted@[i]));
                    assert(v@[j] == entry_of_row(sorted@[j]));
                }
                Ok(v)
            },
            Err(e) => Err(e),
        }
    }

    /// Removes the transcription with id `id`, if there is one.
    pub fn delete_entry(&self, id: i64) -> (r: Result<(), HistoryError>)
        ensures
            r matches Err(e) ==> e is Database,
    {
        let conn = match self.conn() {
            Ok(c) => c,
            Err(e) => return Err(e),
        };
        match database_error(conn.execute(delete_entry_sql(), (id,))) {
            Ok(_) => Ok(()),
            Err(e) => Err(e),
        }
    }

    /// Removes every transcription.
    pub fn clear_all(&self) -> (r: Result<(), HistoryError>)
        ensures
            r matches Err(e) ==> e is Database,
    {
        let conn = match self.conn() {
            Ok(c) => c,
            Err(e) => return Err(e),
        };
        match database_error(conn.execute(clear_entries_sql(), ())) {
            Ok(_) => Ok(()),
            Err(e) => Err(e),
        }
    }
}

/// Reads the rows of the history table, newest first, as (id, text,
/// model, timestamp, duration). The loop stops at `usize::MAX` rows, more
/// than any vector can hold.
fn read_rows(conn: &Connection) -> Result<Vec<(i64, String, String, i64, Option<i64>)>, rusqlite::Error> {
    let mut stmt = match conn.prepare(select_entries_sql()) {
        Ok(s) => s,
        Err(e) => return Err(e),
    };
    let mut rows = match stmt.query(()) {
        Ok(r) => r,
        Err(e) => return Err(e),
    };
    let mut out: Vec<(i64, String, String, i64, Option<i64>)> = Vec::new();
    while out.len() < usize::MAX
        decreases usize::MAX - out.len(),
    {
        let row = match rows.next() {
            Ok(Some(row)) => row,
            Ok(None) => break,
            Err(e) => return Err(e),
        };
        let id: i64 = match row.get(0usize) {
            Ok(v) => v,
            Err(e) => return Err(e),
        };
        let text: String = match row.get(1usize) {
            Ok(v) => v,
            Err(e) => return Err(e),
        };
        let model: String = match row.get(2usize) {
            Ok(v) => v,
            Err(e) => return Err(e),
        };
        let timestamp: i64 = match row.get(3usize) {
            Ok(v) => v,
            Err(e) => return Err(e),
        };
        let duration_ms: Option<i64> = match row.get(4usize) {
            Ok(v) => v,
            Err(e) => return Err(e),
        };
        out.push((id, text, model, timestamp, duration_ms));
    }
    Ok(out)
}

} // verus!
