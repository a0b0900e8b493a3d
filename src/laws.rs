//! Properties of the store that relate several operations, proved over the
//! model that the operations' contracts are stated in.
use vstd::prelude::*;
use crate::note::{NoteView, NewNoteView, NoteChangesView, StoreError};
use crate::model::{
    changed, created, create_error, deleted, has_id, index_of, lemma_lookup_at, lookup, new_note, next_stamp,
    valid_notes,
};

verus! {

/// The notes that a run of creates stores, one draft and one timestamp per
/// create, applied in order.
pub open spec fn created_all(s: Seq<NoteView>, ds: Seq<NewNoteView>, stamps: Seq<i64>) -> Seq<NoteView>
    decreases ds.len(),
{
    if ds.len() == 0 || stamps.len() == 0 {
        s
    } else {
        created_all(created(s, ds[0], stamps[0]), ds.drop_first(), stamps.drop_first())
    }
}

/// Drafts that `create` would take on `s` one by one, at the given times:
/// valid, with ids pairwise distinct and not yet stored in `s`.
pub open spec fn fresh_ids(s: Seq<NoteView>, ds: Seq<NewNoteView>, stamps: Seq<i64>) -> bool {
    &&& forall|i: int| 0 <= i < ds.len() ==> create_error(s, #[trigger] ds[i], stamps[i]) is None
    &&& forall|i: int, j: int|
        0 <= i < ds.len() && 0 <= j < ds.len() && i != j ==> #[trigger] ds[i].id != #[trigger] ds[j].id
}

/// A create that succeeds keeps the store valid: ids stay unique.
pub proof fn law_create_keeps_ids_unique(s: Seq<NoteView>, d: NewNoteView, now: i64)
    requires
        valid_notes(s),
        create_error(s, d, now) is None,
    ensures
        valid_notes(created(s, d, now)),
{
    let t = created(s, d, now);
    assert forall|a: int, b: int| 0 <= a < t.len() && 0 <= b < t.len() && a != b implies #[trigger] t[a].id
        != #[trigger] t[b].id by {
        if a == s.len() {
            assert(t[b] == s[b]);
        } else if b == s.len() {
            assert(t[a] == s[a]);
        }
    }
    assert forall|a: int| 0 <= a < t.len() implies #[trigger] t[a].created_at <= t[a].updated_at by {
        if a < s.len() {
            assert(t[a] == s[a]);
        }
    }
}

/// A note that was created can be read back: same id, title and content, and
/// the caller's timestamps where it gave them.
pub proof fn law_create_then_read(s: Seq<NoteView>, d: NewNoteView, now: i64)
    requires
        valid_notes(s),
        create_error(s, d, now) is None,
    ensures
        lookup(created(s, d, now), d.id) == Some(new_note(d, now)),
        new_note(d, now).id == d.id && new_note(d, now).title == d.title
            && new_note(d, now).content == d.content,
        d.created_at matches Some(c) ==> new_note(d, now).created_at == c,
        d.updated_at matches Some(u) ==> new_note(d, now).updated_at == u,
{
    law_create_keeps_ids_unique(s, d, now);
    lemma_lookup_at(created(s, d, now), s.len() as int);
}

/// Once a note is stored, a second create with its id is refused with
/// `DuplicateId`, and the stored note is still the first one.
pub proof fn law_reused_id_refused(
    s: Seq<NoteView>,
    d: NewNoteView,
    now: i64,
    again: NewNoteView,
    later: i64,
)
    requires
        valid_notes(s),
        create_error(s, d, now) is None,
        create_error(s, again, later) is None,
        again.id == d.id,
    ensures
        create_error(created(s, d, now), again, later) == Some(StoreError::DuplicateId),
        lookup(created(s, d, now), d.id) == Some(new_note(d, now)),
{
    law_create_then_read(s, d, now);
    let t = created(s, d, now);
    assert(t[s.len() as int].id == again.id);
}

/// An update that is taken (a later timestamp exists) moves `updated_at`
/// strictly forward and keeps `id` and `created_at`.
pub proof fn law_update_advances(n: NoteView, c: NoteChangesView, now: i64)
    requires
        next_stamp(n.updated_at, now) is Some,
    ensures
        changed(n, c, now).updated_at > n.updated_at,
        changed(n, c, now).id == n.id,
        changed(n, c, now).created_at == n.created_at,
{
}

/// An update of a stored note leaves the store valid.
pub proof fn law_update_keeps_valid(s: Seq<NoteView>, id: Seq<char>, c: NoteChangesView, now: i64)
    requires
        valid_notes(s),
        has_id(s, id),
    ensures
        valid_notes(crate::model::updated(s, id, c, now)),
        lookup(crate::model::updated(s, id, c, now), id) == Some(changed(s[index_of(s, id)], c, now)),
{
    let i = index_of(s, id);
    let t = crate::model::updated(s, id, c, now);
    assert forall|a: int, b: int| 0 <= a < t.len() && 0 <= b < t.len() && a != b implies #[trigger] t[a].id
        != #[trigger] t[b].id by {
        if a != i {
            assert(t[a] == s[a]);
        }
        if b != i {
            assert(t[b] == s[b]);
        }
    }
    assert forall|a: int| 0 <= a < t.len() implies #[trigger] t[a].created_at <= t[a].updated_at by {
        if a != i {
            assert(t[a] == s[a]);
        } else {
            assert(s[a].created_at <= s[a].updated_at);
        }
    }
    lemma_lookup_at(t, i);
}

/// After a delete the note is gone and the store is still valid.
pub proof fn law_delete_removes(s: Seq<NoteView>, id: Seq<char>)
    requires
        valid_notes(s),
        has_id(s, id),
    ensures
        valid_notes(deleted(s, id)),
        lookup(deleted(s, id), id) is None,
        deleted(s, id).len() == s.len() - 1,
{
    let i = index_of(s, id);
    let t = deleted(s, id);
    assert forall|a: int, b: int| 0 <= a < t.len() && 0 <= b < t.len() && a != b implies #[trigger] t[a].id
        != #[trigger] t[b].id by {
        assert(t[a] == s[if a < i { a } else { a + 1 }]);
        assert(t[b] == s[if b < i { b } else { b + 1 }]);
    }
    assert forall|a: int| 0 <= a < t.len() implies #[trigger] t[a].created_at <= t[a].updated_at by {
        assert(t[a] == s[if a < i { a } else { a + 1 }]);
    }
    if has_id(t, id) {
        let a = choose|a: int| 0 <= a < t.len() && #[trigger] t[a].id == id;
        let a2 = if a < i { a } else { a + 1 };
        assert(t[a] == s[a2]);
        assert(s[i].id == id);
    }
}

/// After a delete, a create with the same (non-empty) id succeeds.
pub proof fn law_delete_then_reuse(s: Seq<NoteView>, id: Seq<char>, d: NewNoteView, now: i64)
    requires
        valid_notes(s),
        has_id(s, id),
        d.id == id,
        id.len() > 0,
        new_note(d, now).created_at <= new_note(d, now).updated_at,
    ensures
        lookup(deleted(s, id), id) is None,
        create_error(deleted(s, id), d, now) is None,
{
    law_delete_removes(s, id);
}

/// A run of creates with fresh, distinct ids all succeed, in whatever order
/// they are serialised: afterwards the store holds the earlier notes and
/// exactly one more note per create, each readable by its id.
pub proof fn law_distinct_creates(s: Seq<NoteView>, ds: Seq<NewNoteView>, stamps: Seq<i64>)
    requires
        valid_notes(s),
        fresh_ids(s, ds, stamps),
        stamps.len() == ds.len(),
    ensures
        valid_notes(created_all(s, ds, stamps)),
        created_all(s, ds, stamps).len() == s.len() + ds.len(),
        forall|i: int| 0 <= i < ds.len() ==> lookup(created_all(s, ds, stamps), (#[trigger] ds[i]).id) is Some,
        forall|k: Seq<char>| has_id(s, k) ==> lookup(created_all(s, ds, stamps), k) == lookup(s, k),
    decreases ds.len(),
{
    if ds.len() > 0 {
        let d = ds[0];
        assert(create_error(s, d, stamps[0]) is None);
        law_create_keeps_ids_unique(s, d, stamps[0]);
        let t = created(s, d, stamps[0]);
        let rest = ds.drop_first();
        let rest_stamps = stamps.drop_first();
        assert forall|i: int| 0 <= i < rest.len() implies create_error(t, #[trigger] rest[i], rest_stamps[i]) is None by {
            assert(rest[i] == ds[i + 1]);
            assert(rest_stamps[i] == stamps[i + 1]);
            assert(create_error(s, ds[i + 1], stamps[i + 1]) is None);
            assert(ds[i + 1].id != ds[0].id);
            if has_id(t, rest[i].id) {
                let a = choose|a: int| 0 <= a < t.len() && #[trigger] t[a].id == rest[i].id;
                if a < s.len() {
                    assert(t[a] == s[a]);
                }
            }
        }
        assert forall|i: int, j: int| 0 <= i < rest.len() && 0 <= j < rest.len() && i != j implies
            #[trigger] rest[i].id != #[trigger] rest[j].id by {
            assert(rest[i] == ds[i + 1]);
            assert(rest[j] == ds[j + 1]);
        }
        law_distinct_creates(t, rest, stamps.drop_first());
        let u = created_all(s, ds, stamps);
        assert(u == created_all(t, rest, stamps.drop_first()));
        lemma_lookup_at(t, s.len() as int);
        assert forall|k: Seq<char>| has_id(s, k) implies lookup(u, k) == lookup(s, k) by {
            let a = index_of(s, k);
            assert(t[a] == s[a]);
            lemma_lookup_at(t, a);
            lemma_lookup_at(s, a);
        }
        assert forall|i: int| 0 <= i < ds.len() implies lookup(u, (#[trigger] ds[i]).id) is Some by {
            if i > 0 {
                assert(rest[i - 1] == ds[i]);
            }
        }
    }
}

} // verus!
