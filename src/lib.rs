//! A durable store of text notes: a verified catalogue of notes with unique
//! ids, kept in step with an embedded SQLite database, and a lock-guarded
//! handle that serialises every operation on it.

pub mod note;
pub mod model;
pub mod index;
pub mod sqlite;
pub mod engine;
pub mod laws;
pub mod state;
