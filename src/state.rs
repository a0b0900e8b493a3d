//! The application state: the one store of the process behind a lock, so
//! that concurrent callers reach it one at a time.
use vstd::prelude::*;
use core::ops::DerefMut;
use std::sync::{Arc, Mutex, MutexGuard, LockResult, PoisonError};
use crate::note::{Note, NoteView, NewNote, NoteChanges, StoreError};
use crate::engine::NoteStore;
use crate::model::{changed, lemma_found, lookup, new_note, valid_notes};
use crate::index::views;

verus! {

#[verifier::external_type_specification]
#[verifier::external_body]
#[verifier::reject_recursive_types(T)]
pub struct ExMutex<T: ?Sized>(Mutex<T>);

#[verifier::external_type_specification]
#[verifier::external_body]
#[verifier::reject_recursive_types(T)]
pub struct ExMutexGuard<'a, T: ?Sized + 'a>(MutexGuard<'a, T>);

#[verifier::external_type_specification]
#[verifier::external_body]
#[verifier::reject_recursive_types(T)]
pub struct ExPoisonError<T>(PoisonError<T>);

/// Relies on std's Mutex::new: a lock around `t`.
pub assume_specification<T>[ Mutex::<T>::new ](t: T) -> Mutex<T>;

/// Relies on std's Mutex::lock: blocks until the lock is held; an error when
/// a holder panicked while it held the lock.
pub assume_specification<T: ?Sized>[ Mutex::<T>::lock ](m: &Mutex<T>) -> LockResult<MutexGuard<'_, T>>;

/// Relies on std's MutexGuard: the guarded value, while the lock is held.
pub assume_specification<'a, 'b, T: ?Sized>[ <MutexGuard<'a, T> as core::ops::DerefMut>::deref_mut ](
    g: &'b mut MutexGuard<'a, T>,
) -> &'b mut T;

pub struct AppState {
    store: Arc<Mutex<NoteStore>>,
}

impl AppState {
    pub fn new(store: NoteStore) -> (r: AppState) {
        AppState { store: Arc::new(Mutex::new(store)) }
    }

    pub fn create(&self, d: &NewNote, now: i64) -> (r: Result<Note, StoreError>)
        ensures
            match r {
                Ok(n) => n@ == new_note(d@, now),
                Err(e) => e == StoreError::ValidationError || e == StoreError::DuplicateId
                    || e == StoreError::StorageUnavailable || e == StoreError::LockUnavailable,
            },
            d.id@.len() == 0 || new_note(d@, now).updated_at < new_note(d@, now).created_at ==> r
                == Err::<Note, StoreError>(StoreError::ValidationError) || r == Err::<Note, StoreError>(
                StoreError::LockUnavailable,
            ),
    {
        let mut guard = match self.store.lock() {
            Ok(g) => g,
            Err(_) => return Err(StoreError::LockUnavailable),
        };
        let store: &mut NoteStore = guard.deref_mut();
        store.create(d, now)
    }

    /// The note with `id`, as stored when the lock was taken.
    pub fn read(&self, id: &String) -> (r: Result<Note, StoreError>)
        ensures
            match r {
                Ok(n) => n.id@ == id@ && n.created_at <= n.updated_at,
                Err(e) => e == StoreError::NotFound || e == StoreError::LockUnavailable,
            },
    {
        let mut guard = match self.store.lock() {
            Ok(g) => g,
            Err(_) => return Err(StoreError::LockUnavailable),
        };
        let store: &mut NoteStore = guard.deref_mut();
        let r = store.read(id);
        proof {
            lemma_found(store@, id@);
        }
        r
    }

    /// Every note, in the order they were created, as stored when the lock was taken; no two
    /// share an id.
    pub fn list(&self) -> (r: Result<Vec<Note>, StoreError>)
        ensures
            match r {
                Ok(v) => valid_notes(views(v@)),
                Err(e) => e == StoreError::LockUnavailable,
            },
    {
        let mut guard = match self.store.lock() {
            Ok(g) => g,
            Err(_) => return Err(StoreError::LockUnavailable),
        };
        let store: &mut NoteStore = guard.deref_mut();
        Ok(store.list())
    }

    /// Updates the note with `id`; the returned note is the stored one with
    /// the fields of `c` written over it and `updated_at` refreshed.
    pub fn update(&self, id: &String, c: &NoteChanges, now: i64) -> (r: Result<Note, StoreError>)
        ensures
            match r {
                Ok(m) => exists|n: NoteView| n.id == id@ && #[trigger] changed(n, c@, now) == m@,
                Err(e) => e == StoreError::NotFound || e == StoreError::ValidationError
                    || e == StoreError::StorageUnavailable || e == StoreError::LockUnavailable,
            },
    {
        let mut guard = match self.store.lock() {
            Ok(g) => g,
            Err(_) => return Err(StoreError::LockUnavailable),
        };
        let store: &mut NoteStore = guard.deref_mut();
        let ghost before = store@;
        let r = store.update(id, c, now);
        proof {
            lemma_found(before, id@);
            if r.is_ok() {
                let n = lookup(before, id@).unwrap();
                assert(changed(n, c@, now) == r.unwrap()@);
            }
        }
        r
    }

    /// Removes the note with `id`.
    pub fn delete(&self, id: &String) -> (r: Result<(), StoreError>)
        ensures
            match r {
                Ok(()) => true,
                Err(e) => e == StoreError::NotFound || e == StoreError::StorageUnavailable
                    || e == StoreError::LockUnavailable,
            },
    {
        let mut guard = match self.store.lock() {
            Ok(g) => g,
            Err(_) => return Err(StoreError::LockUnavailable),
        };
        let store: &mut NoteStore = guard.deref_mut();
        store.delete(id)
    }
}

} // verus!
