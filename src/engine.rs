//! The storage engine: one database connection and the catalogue of the
//! notes it holds. Every change is sent to the database first and enters the
//! catalogue only once the database reports exactly one changed row, so the
//! catalogue never shows a change that the file does not hold. The contracts
//! state which statements each operation sends, with which values.
use vstd::prelude::*;
use crate::note::{Note, NoteView, NewNote, NoteChanges, StoreError};
use crate::index::{views, NoteIndex};
use crate::model::{
    valid_notes, changed, created, create_error, deleted, lookup, new_note, update_error, updated,
};
use crate::sqlite::{execute, is_constraint_violation, pair_views, query_notes, query_pairs, Db, Sent, SqlArg, SqlValue};

verus! {

/// The statement that creates the notes table when it is absent.
pub const SCHEMA_SQL: &'static str = "CREATE TABLE IF NOT EXISTS notes (
            id TEXT PRIMARY KEY,
            title TEXT NOT NULL,
            content TEXT NOT NULL,
            created_at TIMESTAMP DEFAULT CURRENT_TIMESTAMP,
            updated_at TIMESTAMP DEFAULT CURRENT_TIMESTAMP
        )";

/// Reads each column of the notes table: its name, and its declared type,
/// NOT NULL flag, primary-key position and default, joined by `|`.
pub const COLUMNS_SQL: &'static str = "SELECT name, type || '|' || \"notnull\" || '|' || pk || '|' || coalesce(dflt_value, '') FROM pragma_table_info('notes') ORDER BY cid";

/// Reads every note back, in the order the rows were inserted.
pub const SELECT_SQL: &'static str =
    "SELECT id, title, content, created_at, updated_at FROM notes ORDER BY rowid";

pub const INSERT_SQL: &'static str =
    "INSERT INTO notes (id, title, content, created_at, updated_at) VALUES (?1, ?2, ?3, ?4, ?5)";

pub const UPDATE_SQL: &'static str = "UPDATE notes SET title = ?1, content = ?2, updated_at = ?3 WHERE id = ?4";

pub const DELETE_SQL: &'static str = "DELETE FROM notes WHERE id = ?1";

/// The columns that `SCHEMA_SQL` declares, as `COLUMNS_SQL` reads them back:
/// `id TEXT PRIMARY KEY`, `title TEXT NOT NULL`, `content TEXT NOT NULL`,
/// and the two timestamps `TIMESTAMP DEFAULT CURRENT_TIMESTAMP`.
pub open spec fn expected_columns() -> Seq<(Seq<char>, Seq<char>)> {
    seq![
        ("id"@, "TEXT|0|1|"@),
        ("title"@, "TEXT|1|0|"@),
        ("content"@, "TEXT|1|0|"@),
        ("created_at"@, "TIMESTAMP|0|0|CURRENT_TIMESTAMP"@),
        ("updated_at"@, "TIMESTAMP|0|0|CURRENT_TIMESTAMP"@),
    ]
}

/// Whether the columns read back are exactly the expected ones, in order.
pub fn columns_match(cols: &Vec<(String, String)>) -> (r: bool)
    ensures
        r == (pair_views(cols@) == expected_columns()),
{
    let mut want: Vec<(String, String)> = Vec::new();
    want.push(("id".to_owned(), "TEXT|0|1|".to_owned()));
    want.push(("title".to_owned(), "TEXT|1|0|".to_owned()));
    want.push(("content".to_owned(), "TEXT|1|0|".to_owned()));
    want.push(("created_at".to_owned(), "TIMESTAMP|0|0|CURRENT_TIMESTAMP".to_owned()));
    want.push(("updated_at".to_owned(), "TIMESTAMP|0|0|CURRENT_TIMESTAMP".to_owned()));
    assert(pair_views(want@) =~= expected_columns());
    if cols.len() != want.len() {
        assert(pair_views(cols@).len() != expected_columns().len());
        return false;
    }
    let mut i: usize = 0;
    while i < cols.len()
        invariant
            i <= cols@.len(),
            cols@.len() == want@.len(),
            pair_views(want@) == expected_columns(),
            forall|j: int| 0 <= j < i ==> pair_views(cols@)[j] == #[trigger] pair_views(want@)[j],
        decreases cols@.len() - i,
    {
        if !(cols[i].0 == want[i].0 && cols[i].1 == want[i].1) {
            assert(pair_views(cols@)[i as int] != pair_views(want@)[i as int]);
            return false;
        }
        assert(pair_views(cols@)[i as int] == pair_views(want@)[i as int]);
        i += 1;
    }
    assert(pair_views(cols@) =~= pair_views(want@));
    true
}

/// `before` followed by the schema statement and, once that succeeded, the
/// read of the table's columns; no values are bound to either.
pub open spec fn schema_sent(before: Seq<Sent>, after: Seq<Sent>) -> bool {
    let n = before.len();
    &&& after.len() == n + 1 || after.len() == n + 2
    &&& after.subrange(0, n as int) == before
    &&& after[n as int].sql == SCHEMA_SQL@
    &&& after[n as int].args == Seq::<SqlValue>::empty()
    &&& (after.len() == n + 2) == (after[n as int].outcome is Some)
    &&& after.len() == n + 2 ==> after[n + 1int].sql == COLUMNS_SQL@ && after[n + 1int].args
        == Seq::<SqlValue>::empty()
}

/// Both schema statements were sent and succeeded.
pub open spec fn schema_ok(before: Seq<Sent>, after: Seq<Sent>) -> bool {
    after.len() == before.len() + 2 && after.last().outcome is Some
}

/// The values bound to `INSERT_SQL` for `n`.
pub open spec fn insert_args(n: NoteView) -> Seq<SqlValue> {
    seq![
        SqlValue::Text(n.id),
        SqlValue::Text(n.title),
        SqlValue::Text(n.content),
        SqlValue::Int(n.created_at),
        SqlValue::Int(n.updated_at),
    ]
}

/// The values bound to `UPDATE_SQL` to store `n`.
pub open spec fn update_args(n: NoteView) -> Seq<SqlValue> {
    seq![SqlValue::Text(n.title), SqlValue::Text(n.content), SqlValue::Int(n.updated_at), SqlValue::Text(n.id)]
}

/// The values bound to `DELETE_SQL` for `id`.
pub open spec fn delete_args(id: Seq<char>) -> Seq<SqlValue> {
    seq![SqlValue::Text(id)]
}

/// The schema statements succeeded and the columns read back are exactly the
/// expected ones.
pub open spec fn schema_valid(before: Seq<Sent>, after: Seq<Sent>) -> bool {
    schema_ok(before, after) && after.last().pairs == expected_columns()
}

/// Creates the notes table if it is absent, keeping the rows already there,
/// then checks that the table has exactly the expected columns. `Ok` exactly
/// when both statements succeed and the columns match.
pub fn init_database(db: &mut Db) -> (r: Result<(), StoreError>)
    ensures
        final(db).path() == old(db).path(),
        schema_sent(old(db).log(), final(db).log()),
        r.is_ok() == schema_valid(old(db).log(), final(db).log()),
        r.is_err() ==> r == Err::<(), StoreError>(StoreError::SchemaError),
{
    let ghost before = db.log();
    let args: Vec<SqlArg> = Vec::new();
    assert(crate::sqlite::arg_views(args@) =~= Seq::<SqlValue>::empty());
    match execute(db, SCHEMA_SQL, &args) {
        Ok(_) => {},
        Err(_) => {
            assert(db.log().subrange(0, before.len() as int) =~= before);
            return Err(StoreError::SchemaError);
        },
    }
    let ghost mid = db.log();
    let cols = query_pairs(db, COLUMNS_SQL);
    assert(db.log().subrange(0, before.len() as int) =~= before);
    assert(db.log()[before.len() as int] == mid[before.len() as int]);
    match cols {
        Ok(cols) => if columns_match(&cols) {
            Ok(())
        } else {
            Err(StoreError::SchemaError)
        },
        Err(_) => Err(StoreError::SchemaError),
    }
}

/// Whether a write reported exactly one changed row.
pub fn wrote_one_row(outcome: &Result<usize, rusqlite::Error>) -> (r: bool)
    ensures
        r == (outcome.is_ok() && outcome.unwrap() == 1),
{
    match outcome {
        Ok(n) => *n == 1,
        Err(_) => false,
    }
}

pub struct NoteStore {
    db: Db,
    index: NoteIndex,
}

impl View for NoteStore {
    type V = Seq<NoteView>;

    closed spec fn view(&self) -> Seq<NoteView> {
        self.index@
    }
}

impl NoteStore {
    /// Every statement this store has sent to its database, oldest first.
    pub closed spec fn log(&self) -> Seq<Sent> {
        self.db.log()
    }

    /// The path its database was opened on.
    pub closed spec fn path(&self) -> Seq<char> {
        self.db.path()
    }

    /// Opens or creates the database at `path`, creates and checks the notes
    /// table, and loads the notes stored there. A file that cannot be opened
    /// gives `StorageUnavailable`; a table that cannot be created, has other
    /// columns, or holds rows that cannot be read back as valid notes gives
    /// `SchemaError`.
    pub fn open(path: &str) -> (r: Result<NoteStore, StoreError>)
        ensures
            match r {
                Ok(s) => {
                    &&& s.path() == path@
                    &&& valid_notes(s@)
                    &&& s.log().len() == 3
                    &&& schema_sent(Seq::empty(), s.log().drop_last())
                    &&& schema_valid(Seq::empty(), s.log().drop_last())
                    &&& s.log().last().sql == SELECT_SQL@
                    &&& s.log().last().args == Seq::<SqlValue>::empty()
                    &&& s.log().last().outcome == Some(s@.len())
                    &&& s@ == s.log().last().notes
                },
                Err(e) => e == StoreError::StorageUnavailable || e == StoreError::SchemaError,
            },
    {
        let mut db = match Db::open(path) {
            Ok(db) => db,
            Err(_) => return Err(StoreError::StorageUnavailable),
        };
        match init_database(&mut db) {
            Ok(()) => {},
            Err(e) => return Err(e),
        }
        let ghost schema_log = db.log();
        let rows = match query_notes(&mut db, SELECT_SQL) {
            Ok(rows) => rows,
            Err(_) => return Err(StoreError::SchemaError),
        };
        assert(db.log().drop_last() == schema_log);
        let index = match NoteIndex::from_rows(rows) {
            Ok(ix) => ix,
            Err(e) => return Err(e),
        };
        Ok(NoteStore { db, index })
    }

    /// Sends the schema statements again; the notes are untouched.
    pub fn ensure_schema(&mut self) -> (r: Result<(), StoreError>)
        ensures
            final(self)@ == old(self)@,
            final(self).path() == old(self).path(),
            schema_sent(old(self).log(), final(self).log()),
            r.is_ok() == schema_valid(old(self).log(), final(self).log()),
            r.is_err() ==> r == Err::<(), StoreError>(StoreError::SchemaError),
    {
        init_database(&mut self.db)
    }

    /// Stores a new note made from `d` (see `new_note` for its timestamps):
    /// sends `INSERT_SQL` with its five fields, and takes the note once the
    /// database reports one inserted row. A primary-key clash that the
    /// database reports is `DuplicateId` too.
    pub fn create(&mut self, d: &NewNote, now: i64) -> (r: Result<Note, StoreError>)
        ensures
            valid_notes(final(self)@),
            final(self).path() == old(self).path(),
            match create_error(old(self)@, d@, now) {
                Some(e) => r == Err::<Note, StoreError>(e) && final(self)@ == old(self)@
                    && final(self).log() == old(self).log(),
                None => {
                    &&& final(self).log() == old(self).log().push(
                        crate::sqlite::sent(INSERT_SQL@, insert_args(new_note(d@, now)), final(self).log().last().outcome),
                    )
                    &&& r.is_ok() == (final(self).log().last().outcome == Some(1nat))
                    &&& match r {
                        Ok(n) => n@ == new_note(d@, now) && final(self)@ == created(old(self)@, d@, now),
                        Err(e) => final(self)@ == old(self)@ && (e == StoreError::StorageUnavailable || (e
                            == StoreError::DuplicateId && final(self).log().last().outcome is None)),
                    }
                },
            },
    {
        match self.index.check_new(d, now) {
            Some(e) => return Err(e),
            None => {},
        }
        let ghost target = new_note(d@, now);
        let mut args: Vec<SqlArg> = Vec::new();
        args.push(SqlArg::Text(d.id.clone()));
        args.push(SqlArg::Text(d.title.clone()));
        args.push(SqlArg::Text(d.content.clone()));
        args.push(SqlArg::Int(match d.created_at { Some(t) => t, None => now }));
        args.push(SqlArg::Int(match d.updated_at { Some(t) => t, None => match d.created_at { Some(t) => t, None => now } }));
        assert(crate::sqlite::arg_views(args@) =~= insert_args(target));
        let outcome = execute(&mut self.db, INSERT_SQL, &args);
        match &outcome {
            Err(e) => if is_constraint_violation(e) {
                return Err(StoreError::DuplicateId);
            },
            Ok(_) => {},
        }
        if !wrote_one_row(&outcome) {
            return Err(StoreError::StorageUnavailable);
        }
        self.index.create(d, now)
    }

    /// The stored note with `id`; nothing is sent to the database.
    pub fn read(&self, id: &String) -> (r: Result<Note, StoreError>)
        ensures
            valid_notes(self@),
            match lookup(self@, id@) {
                Some(n) => r.is_ok() && r.unwrap()@ == n,
                None => r == Err::<Note, StoreError>(StoreError::NotFound),
            },
    {
        self.index.read(id)
    }

    /// Every stored note, in the order they were created (the order in which
    /// `open` reads them back). Each call builds a fresh list.
    pub fn list(&self) -> (r: Vec<Note>)
        ensures
            valid_notes(self@),
            views(r@) == self@,
    {
        self.index.list()
    }

    /// Overwrites the fields of the note with `id` that `c` gives and moves its
    /// `updated_at` forward; `id` and `created_at` are kept. Sends `UPDATE_SQL`
    /// with the new title, content and `updated_at`, and the id.
    pub fn update(&mut self, id: &String, c: &NoteChanges, now: i64) -> (r: Result<Note, StoreError>)
        ensures
            valid_notes(old(self)@),
            valid_notes(final(self)@),
            final(self).path() == old(self).path(),
            match update_error(old(self)@, id@, now) {
                Some(e) => r == Err::<Note, StoreError>(e) && final(self)@ == old(self)@
                    && final(self).log() == old(self).log(),
                None => {
                    let m = changed(lookup(old(self)@, id@).unwrap(), c@, now);
                    &&& final(self).log() == old(self).log().push(
                        crate::sqlite::sent(UPDATE_SQL@, update_args(m), final(self).log().last().outcome),
                    )
                    &&& r.is_ok() == (final(self).log().last().outcome == Some(1nat))
                    &&& match r {
                        Ok(n) => n@ == m && final(self)@ == updated(old(self)@, id@, c@, now),
                        Err(e) => e == StoreError::StorageUnavailable && final(self)@ == old(self)@,
                    }
                },
            },
    {
        let current = match self.index.read(id) {
            Ok(n) => n,
            Err(e) => return Err(e),
        };
        let next = match crate::index::apply_changes(&current, c, now) {
            Some(n) => n,
            None => return Err(StoreError::ValidationError),
        };
        let ghost target = next@;
        let mut args: Vec<SqlArg> = Vec::new();
        args.push(SqlArg::Text(next.title));
        args.push(SqlArg::Text(next.content));
        args.push(SqlArg::Int(next.updated_at));
        args.push(SqlArg::Text(id.clone()));
        assert(crate::sqlite::arg_views(args@) =~= update_args(target));
        let outcome = execute(&mut self.db, UPDATE_SQL, &args);
        if !wrote_one_row(&outcome) {
            return Err(StoreError::StorageUnavailable);
        }
        self.index.update(id, c, now)
    }

    /// Removes the note with `id`: sends `DELETE_SQL` with the id, and drops
    /// the note once the database reports one deleted row.
    pub fn delete(&mut self, id: &String) -> (r: Result<(), StoreError>)
        ensures
            valid_notes(final(self)@),
            final(self).path() == old(self).path(),
            match lookup(old(self)@, id@) {
                None => r == Err::<(), StoreError>(StoreError::NotFound) && final(self)@ == old(self)@
                    && final(self).log() == old(self).log(),
                Some(_) => {
                    &&& final(self).log() == old(self).log().push(
                        crate::sqlite::sent(DELETE_SQL@, delete_args(id@), final(self).log().last().outcome),
                    )
                    &&& r.is_ok() == (final(self).log().last().outcome == Some(1nat))
                    &&& match r {
                        Ok(()) => final(self)@ == deleted(old(self)@, id@),
                        Err(e) => e == StoreError::StorageUnavailable && final(self)@ == old(self)@,
                    }
                },
            },
    {
        match self.index.read(id) {
            Ok(_) => {},
            Err(e) => return Err(e),
        }
        let mut args: Vec<SqlArg> = Vec::new();
        args.push(SqlArg::Text(id.clone()));
        assert(crate::sqlite::arg_views(args@) =~= delete_args(id@));
        let outcome = execute(&mut self.db, DELETE_SQL, &args);
        if !wrote_one_row(&outcome) {
            return Err(StoreError::StorageUnavailable);
        }
        self.index.delete(id)
    }
}

} // verus!
