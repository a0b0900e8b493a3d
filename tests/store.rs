use notes_store::engine::NoteStore;
use notes_store::index::{apply_changes, next_update_stamp, NoteIndex};
use notes_store::note::{NewNote, Note, NoteChanges, StoreError};
use notes_store::state::AppState;

fn memory_store() -> NoteStore {
    NoteStore::open(":memory:").expect("in-memory database opens")
}

fn id(s: &str) -> String {
    s.to_string()
}

#[test]
fn create_read_delete_example() {
    let mut store = memory_store();
    let made = store.create(&NewNote::new("n1", "Todo", "buy milk"), 1000).unwrap();
    let read = store.read(&id("n1")).unwrap();
    assert_eq!(
        read,
        Note {
            id: id("n1"),
            title: id("Todo"),
            content: id("buy milk"),
            created_at: 1000,
            updated_at: 1000,
        }
    );
    assert_eq!(made, read);
    assert_eq!(store.delete(&id("n1")), Ok(()));
    assert_eq!(store.read(&id("n1")), Err(StoreError::NotFound));
}

#[test]
fn initialize_twice_on_same_path_keeps_rows() {
    let path = "file:notes_twice?mode=memory&cache=shared";
    let mut first = NoteStore::open(path).unwrap();
    first.create(&NewNote::new("a", "first", "one"), 10).unwrap();
    first.create(&NewNote::new("b", "second", "two"), 20).unwrap();
    let second = NoteStore::open(path).unwrap();
    assert_eq!(second.list(), first.list());
    assert_eq!(second.list().len(), 2);
    assert_eq!(second.read(&id("b")).unwrap().content, "two");
}

#[test]
fn ensure_schema_again_keeps_notes() {
    let mut store = memory_store();
    store.create(&NewNote::new("a", "t", "c"), 5).unwrap();
    let before = store.list();
    assert_eq!(store.ensure_schema(), Ok(()));
    assert_eq!(store.ensure_schema(), Ok(()));
    assert_eq!(store.list(), before);
}

#[test]
fn reused_id_is_refused_and_original_kept() {
    let mut store = memory_store();
    store.create(&NewNote::new("x", "original", "body"), 1).unwrap();
    let again = store.create(&NewNote::new("x", "other", "other body"), 2);
    assert_eq!(again, Err(StoreError::DuplicateId));
    let kept = store.read(&id("x")).unwrap();
    assert_eq!(kept.title, "original");
    assert_eq!(kept.content, "body");
    assert_eq!(kept.created_at, 1);
    assert_eq!(store.list().len(), 1);
}

#[test]
fn round_trip_keeps_fields() {
    let mut store = memory_store();
    let draft = NewNote::new("rt", "Title with ünïcode", "multi\nline");
    store.create(&draft, 77).unwrap();
    let back = store.read(&id("rt")).unwrap();
    assert_eq!(back.id, draft.id);
    assert_eq!(back.title, draft.title);
    assert_eq!(back.content, draft.content);
    assert_eq!(back.created_at, 77);
    assert_eq!(back.updated_at, 77);
}

#[test]
fn update_moves_updated_at_forward() {
    let mut store = memory_store();
    store.create(&NewNote::new("u", "old", "text"), 100).unwrap();
    let changes = NoteChanges { title: Some(id("new")), content: None };
    let after = store.update(&id("u"), &changes, 250).unwrap();
    assert_eq!(after.title, "new");
    assert_eq!(after.content, "text");
    assert_eq!(after.created_at, 100);
    assert_eq!(after.updated_at, 250);
    assert_eq!(after.id, "u");
    assert_eq!(store.read(&id("u")).unwrap(), after);
}

#[test]
fn update_with_clock_behind_still_advances() {
    let mut store = memory_store();
    store.create(&NewNote::new("u", "t", "c"), 500).unwrap();
    let changes = NoteChanges { title: None, content: Some(id("c2")) };
    let after = store.update(&id("u"), &changes, 400).unwrap();
    assert_eq!(after.updated_at, 501);
    assert_eq!(after.created_at, 500);
    assert_eq!(after.content, "c2");
}

#[test]
fn update_is_persisted() {
    let path = "file:notes_update?mode=memory&cache=shared";
    let mut store = NoteStore::open(path).unwrap();
    store.create(&NewNote::new("p", "t", "c"), 1).unwrap();
    let changes = NoteChanges { title: Some(id("t2")), content: Some(id("c2")) };
    store.update(&id("p"), &changes, 9).unwrap();
    let reopened = NoteStore::open(path).unwrap();
    let n = reopened.read(&id("p")).unwrap();
    assert_eq!(n.title, "t2");
    assert_eq!(n.content, "c2");
    assert_eq!(n.updated_at, 9);
}

#[test]
fn delete_is_final_and_id_reusable() {
    let mut store = memory_store();
    store.create(&NewNote::new("d", "t", "c"), 1).unwrap();
    assert_eq!(store.delete(&id("d")), Ok(()));
    assert_eq!(store.read(&id("d")), Err(StoreError::NotFound));
    assert_eq!(store.delete(&id("d")), Err(StoreError::NotFound));
    let again = store.create(&NewNote::new("d", "t2", "c2"), 2).unwrap();
    assert_eq!(again.title, "t2");
    assert_eq!(store.list().len(), 1);
}

#[test]
fn delete_is_persisted() {
    let path = "file:notes_delete?mode=memory&cache=shared";
    let mut store = NoteStore::open(path).unwrap();
    store.create(&NewNote::new("k", "t", "c"), 1).unwrap();
    store.create(&NewNote::new("g", "t", "c"), 2).unwrap();
    store.delete(&id("k")).unwrap();
    let reopened = NoteStore::open(path).unwrap();
    assert_eq!(reopened.read(&id("k")), Err(StoreError::NotFound));
    assert_eq!(reopened.list().len(), 1);
}

#[test]
fn distinct_creates_through_shared_state_all_land() {
    let state = AppState::new(memory_store());
    let n: usize = 25;
    for i in 0..n {
        let note_id = format!("note-{i}");
        let made = state.create(&NewNote::new(&note_id, "t", "c"), i as i64).unwrap();
        assert_eq!(made.id, note_id);
    }
    let all = state.list().unwrap();
    assert_eq!(all.len(), n);
    for i in 0..n {
        let note_id = format!("note-{i}");
        assert_eq!(all.iter().filter(|x| x.id == note_id).count(), 1);
    }
}

#[test]
fn shared_state_reports_errors() {
    let state = AppState::new(memory_store());
    assert_eq!(state.read(&id("none")), Err(StoreError::NotFound));
    assert_eq!(state.delete(&id("none")), Err(StoreError::NotFound));
    let changes = NoteChanges { title: None, content: None };
    assert_eq!(state.update(&id("none"), &changes, 1), Err(StoreError::NotFound));
    state.create(&NewNote::new("s", "t", "c"), 3).unwrap();
    assert_eq!(state.create(&NewNote::new("s", "t", "c"), 4), Err(StoreError::DuplicateId));
    let updated = state.update(&id("s"), &changes, 9).unwrap();
    assert_eq!(updated.updated_at, 9);
    assert_eq!(state.read(&id("s")).unwrap(), updated);
    assert_eq!(state.delete(&id("s")), Ok(()));
}

#[test]
fn empty_id_is_a_validation_error() {
    let mut store = memory_store();
    assert_eq!(store.create(&NewNote::new("", "t", "c"), 1), Err(StoreError::ValidationError));
    assert_eq!(store.list().len(), 0);
}

#[test]
fn missing_note_errors() {
    let mut store = memory_store();
    assert_eq!(store.read(&id("ghost")), Err(StoreError::NotFound));
    let changes = NoteChanges { title: Some(id("t")), content: None };
    assert_eq!(store.update(&id("ghost"), &changes, 1), Err(StoreError::NotFound));
    assert_eq!(store.delete(&id("ghost")), Err(StoreError::NotFound));
}

#[test]
fn unusable_path_is_storage_unavailable() {
    let r = NoteStore::open("/no/such/directory/anywhere/notes.db");
    assert!(matches!(r, Err(StoreError::StorageUnavailable)));
}

#[test]
fn list_is_in_creation_order() {
    let mut store = memory_store();
    store.create(&NewNote::new("b", "t", "c"), 1).unwrap();
    store.create(&NewNote::new("a", "t", "c"), 2).unwrap();
    store.create(&NewNote::new("c", "t", "c"), 3).unwrap();
    let ids: Vec<String> = store.list().into_iter().map(|n| n.id).collect();
    assert_eq!(ids, vec![id("b"), id("a"), id("c")]);
}

#[test]
fn next_update_stamp_values() {
    assert_eq!(next_update_stamp(10, 20), Some(20));
    assert_eq!(next_update_stamp(10, 10), Some(11));
    assert_eq!(next_update_stamp(10, 3), Some(11));
    assert_eq!(next_update_stamp(i64::MAX, 3), None);
    assert_eq!(next_update_stamp(i64::MAX - 1, 3), Some(i64::MAX));
}

#[test]
fn apply_changes_overwrites_given_fields() {
    let n = Note { id: id("i"), title: id("a"), content: id("b"), created_at: 1, updated_at: 2 };
    let c = NoteChanges { title: None, content: Some(id("z")) };
    let m = apply_changes(&n, &c, 7).unwrap();
    assert_eq!(m, Note { id: id("i"), title: id("a"), content: id("z"), created_at: 1, updated_at: 7 });
}

#[test]
fn rows_with_shared_id_are_a_schema_error() {
    let a = Note { id: id("same"), title: id("a"), content: id("b"), created_at: 1, updated_at: 2 };
    let b = Note { id: id("same"), title: id("c"), content: id("d"), created_at: 3, updated_at: 4 };
    assert!(matches!(NoteIndex::from_rows(vec![a, b]), Err(StoreError::SchemaError)));
}

#[test]
fn rows_updated_before_created_are_a_schema_error() {
    let a = Note { id: id("a"), title: id("a"), content: id("b"), created_at: 5, updated_at: 4 };
    assert!(matches!(NoteIndex::from_rows(vec![a]), Err(StoreError::SchemaError)));
}

#[test]
fn valid_rows_load_in_order() {
    let a = Note { id: id("a"), title: id("t"), content: id("c"), created_at: 1, updated_at: 1 };
    let b = Note { id: id("b"), title: id("t"), content: id("c"), created_at: 2, updated_at: 3 };
    let ix = NoteIndex::from_rows(vec![a.clone(), b.clone()]).unwrap();
    assert_eq!(ix.len(), 2);
    assert_eq!(ix.list(), vec![a, b]);
}

#[test]
fn apply_changes_refuses_when_stamp_cannot_advance() {
    let n = Note { id: id("i"), title: id("a"), content: id("b"), created_at: 1, updated_at: i64::MAX };
    let c = NoteChanges { title: Some(id("z")), content: None };
    assert_eq!(apply_changes(&n, &c, 5), None);
}

#[test]
fn update_at_largest_timestamp_is_refused() {
    let mut store = memory_store();
    let d = NewNote {
        id: id("m"),
        title: id("t"),
        content: id("c"),
        created_at: Some(0),
        updated_at: Some(i64::MAX),
    };
    store.create(&d, 1).unwrap();
    let changes = NoteChanges { title: Some(id("t2")), content: None };
    assert_eq!(store.update(&id("m"), &changes, 2), Err(StoreError::ValidationError));
    assert_eq!(store.read(&id("m")).unwrap().title, "t");
}

#[test]
fn supplied_timestamps_are_kept() {
    let mut store = memory_store();
    let d = NewNote {
        id: id("s"),
        title: id("t"),
        content: id("c"),
        created_at: Some(40),
        updated_at: Some(60),
    };
    let made = store.create(&d, 1000).unwrap();
    assert_eq!(made.created_at, 40);
    assert_eq!(made.updated_at, 60);
    let only_created = NewNote { created_at: Some(70), ..NewNote::new("o", "t", "c") };
    let made = store.create(&only_created, 1000).unwrap();
    assert_eq!((made.created_at, made.updated_at), (70, 70));
    assert_eq!(store.read(&id("s")).unwrap().updated_at, 60);
}

#[test]
fn supplied_timestamps_out_of_order_are_invalid() {
    let mut store = memory_store();
    let d = NewNote {
        id: id("bad"),
        title: id("t"),
        content: id("c"),
        created_at: Some(60),
        updated_at: Some(40),
    };
    assert_eq!(store.create(&d, 1), Err(StoreError::ValidationError));
    assert_eq!(store.list().len(), 0);
}

#[test]
fn existing_table_with_other_columns_is_a_schema_error() {
    let path = "file:notes_other_columns?mode=memory&cache=shared";
    let raw = rusqlite::Connection::open(path).unwrap();
    raw.execute("CREATE TABLE notes (id INTEGER PRIMARY KEY, body TEXT)", []).unwrap();
    assert!(matches!(NoteStore::open(path), Err(StoreError::SchemaError)));
}

#[test]
fn rows_with_text_timestamps_are_a_schema_error() {
    let path = "file:notes_text_stamps?mode=memory&cache=shared";
    let first = NoteStore::open(path).unwrap();
    let raw = rusqlite::Connection::open(path).unwrap();
    raw.execute("INSERT INTO notes (id, title, content) VALUES ('x', 't', 'c')", []).unwrap();
    assert!(matches!(NoteStore::open(path), Err(StoreError::SchemaError)));
    assert_eq!(first.list().len(), 0);
}

#[test]
fn reopened_store_lists_in_creation_order() {
    let path = "file:notes_order?mode=memory&cache=shared";
    let mut store = NoteStore::open(path).unwrap();
    store.create(&NewNote::new("late", "t", "c"), 300).unwrap();
    store.create(&NewNote::new("early", "t", "c"), 100).unwrap();
    let reopened = NoteStore::open(path).unwrap();
    assert_eq!(reopened.list(), store.list());
    assert_eq!(reopened.list()[0].id, "late");
}

#[test]
fn table_without_primary_key_is_a_schema_error() {
    let path = "file:notes_no_key?mode=memory&cache=shared";
    let raw = rusqlite::Connection::open(path).unwrap();
    raw.execute(
        "CREATE TABLE notes (id TEXT, title TEXT, content TEXT, created_at TIMESTAMP, updated_at TIMESTAMP)",
        [],
    )
    .unwrap();
    assert!(matches!(NoteStore::open(path), Err(StoreError::SchemaError)));
}

#[test]
fn fresh_database_initialises() {
    let mut store = memory_store();
    assert_eq!(store.list().len(), 0);
    assert_eq!(store.ensure_schema(), Ok(()));
}

#[test]
fn clash_reported_by_database_is_duplicate_id() {
    let path = "file:notes_clash?mode=memory&cache=shared";
    let mut store = NoteStore::open(path).unwrap();
    let raw = rusqlite::Connection::open(path).unwrap();
    raw.execute(
        "INSERT INTO notes (id, title, content, created_at, updated_at) VALUES ('w', 't', 'c', 1, 1)",
        [],
    )
    .unwrap();
    assert_eq!(store.create(&NewNote::new("w", "t2", "c2"), 5), Err(StoreError::DuplicateId));
    assert_eq!(store.list().len(), 0);
}

#[test]
fn shared_state_refuses_invalid_drafts() {
    let state = AppState::new(memory_store());
    let d = NewNote { created_at: Some(9), updated_at: Some(3), ..NewNote::new("v", "t", "c") };
    assert_eq!(state.create(&d, 1), Err(StoreError::ValidationError));
    assert_eq!(state.create(&NewNote::new("", "t", "c"), 1), Err(StoreError::ValidationError));
}
