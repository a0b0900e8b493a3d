use vstd::prelude::*;

verus! {

/// Why an operation on the store failed.
#[derive(PartialEq, Eq, Structural, Clone, Copy, Debug)]
pub enum StoreError {
    /// The database file could not be opened, read or written.
    StorageUnavailable,
    /// The notes table could not be created, or its rows break the store's rules.
    SchemaError,
    /// A note with the same id is already stored.
    DuplicateId,
    /// No note with the given id is stored.
    NotFound,
    /// A required field is empty.
    ValidationError,
    /// The lock around the store was poisoned by a holder that panicked.
    LockUnavailable,
}

/// A stored note. Timestamps are milliseconds since the Unix epoch.
#[derive(Clone, Debug, PartialEq, Eq)]
pub struct Note {
    pub id: String,
    pub title: String,
    pub content: String,
    pub created_at: i64,
    pub updated_at: i64,
}

/// The mathematical value of a note.
pub struct NoteView {
    pub id: Seq<char>,
    pub title: Seq<char>,
    pub content: Seq<char>,
    pub created_at: i64,
    pub updated_at: i64,
}

impl View for Note {
    type V = NoteView;

    open spec fn view(&self) -> NoteView {
        NoteView {
            id: self.id@,
            title: self.title@,
            content: self.content@,
            created_at: self.created_at,
            updated_at: self.updated_at,
        }
    }
}

impl Note {
    /// A copy of the note, field for field.
    pub fn duplicate(&self) -> (r: Note)
        ensures
            r@ == self@,
    {
        Note {
            id: self.id.clone(),
            title: self.title.clone(),
            content: self.content.clone(),
            created_at: self.created_at,
            updated_at: self.updated_at,
        }
    }
}

/// What a caller hands to `create`. A timestamp left `None` is assigned by
/// the store: `created_at` the time of the create, `updated_at` the creation
/// time.
#[derive(Clone, Debug, PartialEq, Eq)]
pub struct NewNote {
    pub id: String,
    pub title: String,
    pub content: String,
    pub created_at: Option<i64>,
    pub updated_at: Option<i64>,
}

pub struct NewNoteView {
    pub id: Seq<char>,
    pub title: Seq<char>,
    pub content: Seq<char>,
    pub created_at: Option<i64>,
    pub updated_at: Option<i64>,
}

impl View for NewNote {
    type V = NewNoteView;

    open spec fn view(&self) -> NewNoteView {
        NewNoteView {
            id: self.id@,
            title: self.title@,
            content: self.content@,
            created_at: self.created_at,
            updated_at: self.updated_at,
        }
    }
}

impl NewNote {
    /// A note whose timestamps the store assigns.
    pub fn new(id: &str, title: &str, content: &str) -> (r: NewNote)
        ensures
            r.id@ == id@,
            r.title@ == title@,
            r.content@ == content@,
            r.created_at is None,
            r.updated_at is None,
    {
        NewNote {
            id: id.to_owned(),
            title: title.to_owned(),
            content: content.to_owned(),
            created_at: None,
            updated_at: None,
        }
    }
}

/// The fields that an update overwrites; `None` keeps the stored value.
#[derive(Clone, Debug, PartialEq, Eq)]
pub struct NoteChanges {
    pub title: Option<String>,
    pub content: Option<String>,
}

pub struct NoteChangesView {
    pub title: Option<Seq<char>>,
    pub content: Option<Seq<char>>,
}

pub open spec fn opt_view(o: Option<String>) -> Option<Seq<char>> {
    match o {
        Some(s) => Some(s@),
        None => None,
    }
}

impl View for NoteChanges {
    type V = NoteChangesView;

    open spec fn view(&self) -> NoteChangesView {
        NoteChangesView { title: opt_view(self.title), content: opt_view(self.content) }
    }
}

} // verus!
