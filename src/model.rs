//! The store as a mathematical object: the sequence of stored notes, in the
//! order they were created, and what each operation makes of it.
use vstd::prelude::*;
use crate::note::{NoteView, NewNoteView, NoteChangesView, StoreError};

verus! {

/// No two stored notes share an id.
pub open spec fn ids_unique(s: Seq<NoteView>) -> bool {
    forall|i: int, j: int|
        0 <= i < s.len() && 0 <= j < s.len() && i != j ==> #[trigger] s[i].id != #[trigger] s[j].id
}

/// No stored note was updated before it was created.
pub open spec fn stamps_ordered(s: Seq<NoteView>) -> bool {
    forall|i: int| 0 <= i < s.len() ==> #[trigger] s[i].created_at <= s[i].updated_at
}

/// The invariant of every state of the store.
pub open spec fn valid_notes(s: Seq<NoteView>) -> bool {
    ids_unique(s) && stamps_ordered(s)
}

pub open spec fn has_id(s: Seq<NoteView>, id: Seq<char>) -> bool {
    exists|i: int| 0 <= i < s.len() && #[trigger] s[i].id == id
}

/// Where the note with `id` stands (meaningful when `has_id(s, id)`).
pub open spec fn index_of(s: Seq<NoteView>, id: Seq<char>) -> int {
    choose|i: int| 0 <= i < s.len() && #[trigger] s[i].id == id
}

/// The stored note with `id`, if there is one.
pub open spec fn lookup(s: Seq<NoteView>, id: Seq<char>) -> Option<NoteView> {
    if has_id(s, id) {
        Some(s[index_of(s, id)])
    } else {
        None
    }
}

/// The error that `create` reports for `d`, if any: an empty id, or
/// timestamps that put the update before the creation, are invalid.
pub open spec fn create_error(s: Seq<NoteView>, d: NewNoteView, now: i64) -> Option<StoreError> {
    if d.id.len() == 0 || new_note(d, now).updated_at < new_note(d, now).created_at {
        Some(StoreError::ValidationError)
    } else if has_id(s, d.id) {
        Some(StoreError::DuplicateId)
    } else {
        None
    }
}

pub open spec fn or_else(o: Option<i64>, v: i64) -> i64 {
    match o {
        Some(x) => x,
        None => v,
    }
}

/// The note that `create` stores for `d` at time `now`: the caller's
/// timestamps where given, else `now` for the creation and the creation time
/// for the update.
pub open spec fn new_note(d: NewNoteView, now: i64) -> NoteView {
    NoteView {
        id: d.id,
        title: d.title,
        content: d.content,
        created_at: or_else(d.created_at, now),
        updated_at: or_else(d.updated_at, or_else(d.created_at, now)),
    }
}

pub open spec fn created(s: Seq<NoteView>, d: NewNoteView, now: i64) -> Seq<NoteView> {
    s.push(new_note(d, now))
}

/// The `updated_at` that an update at time `now` gives a note last updated at
/// `prev`: the current time, or one tick later than `prev` when the clock has
/// not moved past it; `None` when no later timestamp exists.
pub open spec fn next_stamp(prev: i64, now: i64) -> Option<i64> {
    if now > prev {
        Some(now)
    } else if prev < i64::MAX {
        Some((prev + 1) as i64)
    } else {
        None
    }
}

pub open spec fn pick(o: Option<Seq<char>>, keep: Seq<char>) -> Seq<char> {
    match o {
        Some(v) => v,
        None => keep,
    }
}

/// `n` after an update with `c` at time `now`.
pub open spec fn changed(n: NoteView, c: NoteChangesView, now: i64) -> NoteView {
    NoteView {
        id: n.id,
        title: pick(c.title, n.title),
        content: pick(c.content, n.content),
        created_at: n.created_at,
        updated_at: or_else(next_stamp(n.updated_at, now), n.updated_at),
    }
}

/// The error that `update` reports, if any.
pub open spec fn update_error(s: Seq<NoteView>, id: Seq<char>, now: i64) -> Option<StoreError> {
    match lookup(s, id) {
        None => Some(StoreError::NotFound),
        Some(n) => if next_stamp(n.updated_at, now) is None {
            Some(StoreError::ValidationError)
        } else {
            None
        },
    }
}

pub open spec fn updated(s: Seq<NoteView>, id: Seq<char>, c: NoteChangesView, now: i64) -> Seq<NoteView> {
    s.update(index_of(s, id), changed(s[index_of(s, id)], c, now))
}

pub open spec fn deleted(s: Seq<NoteView>, id: Seq<char>) -> Seq<NoteView> {
    s.remove(index_of(s, id))
}

/// With unique ids, the note found at `i` is the one `lookup` gives.
pub proof fn lemma_lookup_at(s: Seq<NoteView>, i: int)
    requires
        ids_unique(s),
        0 <= i < s.len(),
    ensures
        has_id(s, s[i].id),
        index_of(s, s[i].id) == i,
        lookup(s, s[i].id) == Some(s[i]),
{
    assert(s[i].id == s[i].id);
    let j = index_of(s, s[i].id);
    assert(s[j].id == s[i].id);
}

/// The note that `lookup` finds carries the id it was looked up by.
pub proof fn lemma_found(s: Seq<NoteView>, id: Seq<char>)
    requires
        valid_notes(s),
    ensures
        match lookup(s, id) {
            Some(n) => n.id == id && n.created_at <= n.updated_at,
            None => !has_id(s, id),
        },
{
    if has_id(s, id) {
        let i = index_of(s, id);
        assert(s[i].id == id);
        assert(s[i].created_at <= s[i].updated_at);
    }
}

} // verus!
