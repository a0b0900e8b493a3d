//! The database connection and the calls into rusqlite that the store makes.
//! A `Db` carries, as ghost state, the log of every statement sent through it:
//! its text, the values bound to it, and what came back. What a statement
//! does to the database file is SQLite's business and is not stated here.
use vstd::prelude::*;
use crate::note::{Note, NoteView};
use crate::index::views;

verus! {

#[verifier::external_type_specification]
#[verifier::external_body]
pub struct ExConnection(rusqlite::Connection);

#[verifier::external_type_specification]
#[verifier::external_body]
pub struct ExSqliteError(rusqlite::Error);

/// A value bound to a statement parameter.
pub enum SqlArg {
    Int(i64),
    Text(String),
}

/// The mathematical value of a bound parameter.
pub enum SqlValue {
    Int(i64),
    Text(Seq<char>),
}

impl View for SqlArg {
    type V = SqlValue;

    open spec fn view(&self) -> SqlValue {
        match self {
            SqlArg::Int(v) => SqlValue::Int(*v),
            SqlArg::Text(t) => SqlValue::Text(t@),
        }
    }
}

pub open spec fn arg_views(args: Seq<SqlArg>) -> Seq<SqlValue> {
    args.map_values(|a: SqlArg| a@)
}

/// One statement sent to the database: its text, its bound values, the
/// number the call reported (rows changed, or rows read), `None` on failure,
/// and what a successful read returned (empty for a write or a failure).
pub struct Sent {
    pub sql: Seq<char>,
    pub args: Seq<SqlValue>,
    pub outcome: Option<nat>,
    pub pairs: Seq<(Seq<char>, Seq<char>)>,
    pub notes: Seq<NoteView>,
}

/// A write, or a read that returned nothing.
pub open spec fn sent(sql: Seq<char>, args: Seq<SqlValue>, outcome: Option<nat>) -> Sent {
    Sent { sql, args, outcome, pairs: Seq::empty(), notes: Seq::empty() }
}

pub open spec fn pair_views(v: Seq<(String, String)>) -> Seq<(Seq<char>, Seq<char>)> {
    v.map_values(|p: (String, String)| (p.0@, p.1@))
}

/// The log entry of a read of text pairs.
pub open spec fn pairs_read(sql: Seq<char>, r: Result<Vec<(String, String)>, rusqlite::Error>) -> Sent {
    match r {
        Ok(v) => Sent {
            sql,
            args: Seq::empty(),
            outcome: Some(v@.len()),
            pairs: pair_views(v@),
            notes: Seq::empty(),
        },
        Err(_) => sent(sql, Seq::empty(), None),
    }
}

/// The log entry of a read of notes.
pub open spec fn notes_read(sql: Seq<char>, r: Result<Vec<Note>, rusqlite::Error>) -> Sent {
    match r {
        Ok(v) => Sent {
            sql,
            args: Seq::empty(),
            outcome: Some(v@.len()),
            pairs: Seq::empty(),
            notes: views(v@),
        },
        Err(_) => sent(sql, Seq::empty(), None),
    }
}

/// The number a call reported, `None` on failure.
pub open spec fn outcome_of<T>(r: Result<T, rusqlite::Error>, count: nat) -> Option<nat> {
    match r {
        Ok(_) => Some(count),
        Err(_) => None,
    }
}

/// An open database connection with the log of what was sent through it.
pub struct Db {
    conn: rusqlite::Connection,
    path: Ghost<Seq<char>>,
    log: Ghost<Seq<Sent>>,
}

impl Db {
    /// The path the connection was opened on.
    pub closed spec fn path(&self) -> Seq<char> {
        self.path@
    }

    /// Every statement sent through this connection, oldest first.
    pub closed spec fn log(&self) -> Seq<Sent> {
        self.log@
    }

    /// Opens or creates the database file at `path` (":memory:" gives a
    /// private in-memory database); nothing has been sent through it yet.
    pub fn open(path: &str) -> (r: Result<Db, rusqlite::Error>)
        ensures
            r.is_ok() ==> r.unwrap().path() == path@ && r.unwrap().log() == Seq::<Sent>::empty(),
    {
        match open_connection(path) {
            Ok(conn) => Ok(Db { conn, path: Ghost(path@), log: Ghost(Seq::empty()) }),
            Err(e) => Err(e),
        }
    }
}

/// Relies on rusqlite::Connection::open: opens, or creates, the database file
/// at `path`.
#[verifier::external_body]
fn open_connection(path: &str) -> (r: Result<rusqlite::Connection, rusqlite::Error>) {
    rusqlite::Connection::open(path)
}

/// Relies on rusqlite::Connection::execute: runs one statement with `args`
/// bound to its parameters `?1`, `?2`, ... in order, and returns the number of
/// rows it changed.
#[verifier::external_body]
pub(crate) fn execute(db: &mut Db, sql: &str, args: &Vec<SqlArg>) -> (r: Result<usize, rusqlite::Error>)
    ensures
        final(db).path() == old(db).path(),
        final(db).log() == old(db).log().push(
            sent(sql@, arg_views(args@), outcome_of(r, if r.is_ok() { r.unwrap() as nat } else { 0 })),
        ),
{
    let values = args.iter().map(|a| match a {
        SqlArg::Int(v) => rusqlite::types::Value::Integer(*v),
        SqlArg::Text(t) => rusqlite::types::Value::Text(t.clone()),
    });
    db.conn.execute(sql, rusqlite::params_from_iter(values))
}

/// Relies on rusqlite::Error::sqlite_error_code: whether SQLite reported a
/// constraint violation (for the store's INSERT, a clash on the primary key).
#[verifier::external_body]
pub(crate) fn is_constraint_violation(e: &rusqlite::Error) -> (r: bool) {
    e.sqlite_error_code() == Some(rusqlite::ErrorCode::ConstraintViolation)
}

/// Relies on rusqlite's Connection::prepare, Statement::query_map and
/// Row::get: reads every row that `sql` selects, columns taken as (id, title,
/// content, created_at, updated_at), in the order the statement gives them;
/// an error when a statement fails or a column has another type.
#[verifier::external_body]
pub(crate) fn query_notes(db: &mut Db, sql: &str) -> (r: Result<Vec<Note>, rusqlite::Error>)
    ensures
        final(db).path() == old(db).path(),
        final(db).log() == old(db).log().push(notes_read(sql@, r)),
{
    let mut stmt = db.conn.prepare(sql)?;
    let rows = stmt.query_map([], |row| {
        Ok(Note {
            id: row.get(0)?,
            title: row.get(1)?,
            content: row.get(2)?,
            created_at: row.get(3)?,
            updated_at: row.get(4)?,
        })
    })?;
    rows.collect()
}

/// Relies on rusqlite's Connection::prepare, Statement::query_map and
/// Row::get: reads every row that `sql` selects as a pair of its first two
/// columns, both text, in the order the statement gives them; an error when
/// the statement fails or a column is not text.
#[verifier::external_body]
pub(crate) fn query_pairs(db: &mut Db, sql: &str) -> (r: Result<Vec<(String, String)>, rusqlite::Error>)
    ensures
        final(db).path() == old(db).path(),
        final(db).log() == old(db).log().push(pairs_read(sql@, r)),
{
    let mut stmt = db.conn.prepare(sql)?;
    let rows = stmt.query_map([], |row| Ok((row.get(0)?, row.get(1)?)))?;
    rows.collect()
}

} // verus!
