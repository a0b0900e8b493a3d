//! The in-memory catalogue of stored notes: one entry per id, in the order
//! the notes were created.
use vstd::prelude::*;
use crate::note::{Note, NoteView, NewNote, NoteChanges, StoreError};
use crate::model::{
    changed, created, create_error, deleted, has_id, ids_unique, index_of, lemma_lookup_at, lookup,
    new_note, next_stamp, stamps_ordered, update_error, updated, valid_notes,
};
use crate::laws::{law_create_keeps_ids_unique, law_update_keeps_valid, law_delete_removes};

verus! {

pub struct NoteIndex {
    notes: Vec<Note>,
}

/// The values of a run of notes.
pub open spec fn views(v: Seq<Note>) -> Seq<NoteView> {
    v.map_values(|n: Note| n@)
}

impl View for NoteIndex {
    type V = Seq<NoteView>;

    closed spec fn view(&self) -> Seq<NoteView> {
        views(self.notes@)
    }
}

/// Where the note with `id` stands in `notes`, if it is there.
fn find_id(notes: &Vec<Note>, id: &String) -> (r: Option<usize>)
    requires
        ids_unique(views(notes@)),
    ensures
        match r {
            Some(i) => i < notes@.len() && notes@[i as int].id@ == id@ && index_of(views(notes@), id@) == i
                && views(notes@)[i as int] == notes@[i as int]@
                && lookup(views(notes@), id@) == Some(notes@[i as int]@),
            None => !has_id(views(notes@), id@),
        },
{
    let ghost s = views(notes@);
    let mut i: usize = 0;
    while i < notes.len()
        invariant
            i <= notes@.len(),
            s == views(notes@),
            ids_unique(s),
            s.len() == notes@.len(),
            forall|j: int| 0 <= j < i ==> #[trigger] s[j].id != id@,
        decreases notes@.len() - i,
    {
        assert(s[i as int] == notes@[i as int]@);
        if notes[i].id == *id {
            proof {
                lemma_lookup_at(s, i as int);
            }
            return Some(i);
        }
        i += 1;
    }
    None
}

/// The timestamp an update at `now` gives a note last updated at `prev`;
/// `None` when no later timestamp exists.
pub fn next_update_stamp(prev: i64, now: i64) -> (r: Option<i64>)
    ensures
        r == next_stamp(prev, now),
{
    if now > prev {
        Some(now)
    } else if prev < i64::MAX {
        Some(prev + 1)
    } else {
        None
    }
}

/// `n` with the fields of `c` written over it and `updated_at` moved forward;
/// `None` when no later timestamp exists.
pub fn apply_changes(n: &Note, c: &NoteChanges, now: i64) -> (r: Option<Note>)
    ensures
        r is None <==> next_stamp(n.updated_at, now) is None,
        r matches Some(m) ==> m@ == changed(n@, c@, now),
{
    let stamp = match next_update_stamp(n.updated_at, now) {
        Some(t) => t,
        None => return None,
    };
    let title = match &c.title {
        Some(t) => t.clone(),
        None => n.title.clone(),
    };
    let content = match &c.content {
        Some(t) => t.clone(),
        None => n.content.clone(),
    };
    Some(Note { id: n.id.clone(), title, content, created_at: n.created_at, updated_at: stamp })
}

/// The (created_at, updated_at) that `create` gives `d` at time `now`.
fn stamps_of(d: &NewNote, now: i64) -> (r: (i64, i64))
    ensures
        r.0 == new_note(d@, now).created_at,
        r.1 == new_note(d@, now).updated_at,
{
    let created_at = match d.created_at {
        Some(t) => t,
        None => now,
    };
    let updated_at = match d.updated_at {
        Some(t) => t,
        None => created_at,
    };
    (created_at, updated_at)
}

impl NoteIndex {
    #[verifier::type_invariant]
    spec fn inv(&self) -> bool {
        valid_notes(self@)
    }

    pub fn new() -> (r: NoteIndex)
        ensures
            r@ == Seq::<NoteView>::empty(),
            valid_notes(r@),
    {
        let notes: Vec<Note> = Vec::new();
        assert(views(notes@) =~= Seq::<NoteView>::empty());
        NoteIndex { notes }
    }

    pub fn len(&self) -> (r: usize)
        ensures
            r == self@.len(),
    {
        self.notes.len()
    }

    /// Builds the catalogue from rows read back from the database; refused
    /// when two rows share an id or a row was updated before it was created.
    pub fn from_rows(rows: Vec<Note>) -> (r: Result<NoteIndex, StoreError>)
        ensures
            match r {
                Ok(ix) => ix@ == views(rows@) && valid_notes(ix@),
                Err(e) => e == StoreError::SchemaError,
            },
            r.is_ok() == valid_notes(views(rows@)),
    {
        let ghost target = views(rows@);
        let mut acc: Vec<Note> = Vec::new();
        let mut k: usize = 0;
        while k < rows.len()
            invariant
                k <= rows@.len(),
                target == views(rows@),
                valid_notes(views(acc@)),
                views(acc@) == target.subrange(0, k as int),
            decreases rows@.len() - k,
        {
            let n = &rows[k];
            assert(target[k as int] == n@);
            if n.created_at > n.updated_at {
                assert(target[k as int].created_at > target[k as int].updated_at);
                assert(!stamps_ordered(target));
                return Err(StoreError::SchemaError);
            }
            match find_id(&acc, &n.id) {
                Some(j) => {
                    assert(views(acc@)[j as int] == target[j as int]);
                    assert(target[j as int].id == target[k as int].id);
                    assert(!ids_unique(target));
                    return Err(StoreError::SchemaError);
                },
                None => {},
            }
            let ghost before = views(acc@);
            acc.push(n.duplicate());
            assert(views(acc@) =~= before.push(n@));
            assert(views(acc@) =~= target.subrange(0, k + 1));
            proof {
                let t = views(acc@);
                assert forall|a: int, b: int|
                    0 <= a < t.len() && 0 <= b < t.len() && a != b implies #[trigger] t[a].id
                        != #[trigger] t[b].id by {
                    if a == k as int {
                        assert(t[b] == before[b]);
                    } else if b == k as int {
                        assert(t[a] == before[a]);
                    }
                }
                assert forall|a: int| 0 <= a < t.len() implies #[trigger] t[a].created_at
                    <= t[a].updated_at by {
                    if a < k {
                        assert(t[a] == before[a]);
                    }
                }
            }
            k += 1;
        }
        assert(views(acc@) =~= target);
        Ok(NoteIndex { notes: acc })
    }

    /// Why `create` would refuse `d`, checked without changing anything.
    pub fn check_new(&self, d: &NewNote, now: i64) -> (r: Option<StoreError>)
        ensures
            valid_notes(self@),
            r == create_error(self@, d@, now),
    {
        proof {
            use_type_invariant(self);
        }
        let (created_at, updated_at) = stamps_of(d, now);
        if d.id.as_str().is_empty() || updated_at < created_at {
            return Some(StoreError::ValidationError);
        }
        match find_id(&self.notes, &d.id) {
            Some(_) => Some(StoreError::DuplicateId),
            None => None,
        }
    }

    /// Stores a new note made from `d` at time `now`.
    pub fn create(&mut self, d: &NewNote, now: i64) -> (r: Result<Note, StoreError>)
        ensures
            valid_notes(final(self)@),
            match create_error(old(self)@, d@, now) {
                Some(e) => r == Err::<Note, StoreError>(e) && final(self)@ == old(self)@,
                None => r.is_ok() && r.unwrap()@ == new_note(d@, now)
                    && final(self)@ == created(old(self)@, d@, now),
            },
    {
        proof {
            use_type_invariant(&*self);
        }
        match self.check_new(d, now) {
            Some(e) => return Err(e),
            None => {},
        }
        let (created_at, updated_at) = stamps_of(d, now);
        let n = Note {
            id: d.id.clone(),
            title: d.title.clone(),
            content: d.content.clone(),
            created_at,
            updated_at,
        };
        let out = n.duplicate();
        let mut notes: Vec<Note> = Vec::new();
        std::mem::swap(&mut notes, &mut self.notes);
        let ghost before = views(notes@);
        notes.push(n);
        assert(views(notes@) =~= before.push(new_note(d@, now)));
        proof {
            law_create_keeps_ids_unique(before, d@, now);
        }
        self.notes = notes;
        Ok(out)
    }

    /// The stored note with `id`.
    pub fn read(&self, id: &String) -> (r: Result<Note, StoreError>)
        ensures
            valid_notes(self@),
            match lookup(self@, id@) {
                Some(n) => r.is_ok() && r.unwrap()@ == n,
                None => r == Err::<Note, StoreError>(StoreError::NotFound),
            },
    {
        proof {
            use_type_invariant(self);
        }
        match find_id(&self.notes, id) {
            Some(i) => {
                assert(self@[i as int] == self.notes@[i as int]@);
                Ok(self.notes[i].duplicate())
            },
            None => Err(StoreError::NotFound),
        }
    }

    /// Every stored note, oldest first.
    pub fn list(&self) -> (r: Vec<Note>)
        ensures
            valid_notes(self@),
            views(r@) == self@,
    {
        proof {
            use_type_invariant(self);
        }
        let mut out: Vec<Note> = Vec::new();
        let mut i: usize = 0;
        while i < self.notes.len()
            invariant
                i <= self.notes@.len(),
                self@ == views(self.notes@),
                views(out@) == self@.subrange(0, i as int),
            decreases self.notes@.len() - i,
        {
            assert(self@[i as int] == self.notes@[i as int]@);
            let ghost before = views(out@);
            out.push(self.notes[i].duplicate());
            assert(views(out@) =~= before.push(self@[i as int]));
            assert(views(out@) =~= self@.subrange(0, i + 1));
            i += 1;
        }
        assert(self@.subrange(0, self@.len() as int) =~= self@);
        out
    }

    /// Overwrites the fields of the note with `id` that `c` gives, refreshes
    /// its `updated_at`, and returns the note as stored now.
    pub fn update(&mut self, id: &String, c: &NoteChanges, now: i64) -> (r: Result<Note, StoreError>)
        ensures
            valid_notes(old(self)@),
            valid_notes(final(self)@),
            match update_error(old(self)@, id@, now) {
                Some(e) => r == Err::<Note, StoreError>(e) && final(self)@ == old(self)@,
                None => r.is_ok() && r.unwrap()@ == changed(lookup(old(self)@, id@).unwrap(), c@, now)
                    && final(self)@ == updated(old(self)@, id@, c@, now),
            },
    {
        proof {
            use_type_invariant(&*self);
        }
        match find_id(&self.notes, id) {
            None => Err(StoreError::NotFound),
            Some(i) => {
                assert(self@[i as int] == self.notes@[i as int]@);
                proof {
                    lemma_lookup_at(self@, i as int);
                    law_update_keeps_valid(self@, id@, c@, now);
                }
                let n = match apply_changes(&self.notes[i], c, now) {
                    Some(n) => n,
                    None => return Err(StoreError::ValidationError),
                };
                let out = n.duplicate();
                let mut notes: Vec<Note> = Vec::new();
                std::mem::swap(&mut notes, &mut self.notes);
                let ghost before = views(notes@);
                notes.set(i, n);
                assert(views(notes@) =~= before.update(i as int, out@));
                self.notes = notes;
                Ok(out)
            },
        }
    }

    /// Removes the note with `id`.
    pub fn delete(&mut self, id: &String) -> (r: Result<(), StoreError>)
        ensures
            valid_notes(final(self)@),
            match lookup(old(self)@, id@) {
                Some(_) => r == Ok::<(), StoreError>(()) && final(self)@ == deleted(old(self)@, id@),
                None => r == Err::<(), StoreError>(StoreError::NotFound) && final(self)@ == old(self)@,
            },
    {
        proof {
            use_type_invariant(&*self);
        }
        match find_id(&self.notes, id) {
            None => Err(StoreError::NotFound),
            Some(i) => {
                proof {
                    law_delete_removes(self@, id@);
                }
                let mut notes: Vec<Note> = Vec::new();
                std::mem::swap(&mut notes, &mut self.notes);
                let ghost before = views(notes@);
                let _gone = notes.remove(i);
                assert(views(notes@) =~= before.remove(i as int));
                self.notes = notes;
                Ok(())
            },
        }
    }
}

} // verus!
