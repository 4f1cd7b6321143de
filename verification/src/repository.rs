//! The persistence abstraction the use cases depend on. The crate consumes
//! this trait; concrete adapters (an in-memory store, a database client)
//! implement it outside. Nothing is promised of an implementation: a use
//! case states what it returns for every answer a repository may give.

use vstd::prelude::*;

use crate::note::Note;

verus! {

/// A failure reported by the persistence collaborator.
#[derive(Debug)]
pub enum NoteRepositoryError {
    /// No note with the given identifier exists.
    NoteNotFound,
    /// A note with the given identifier already exists.
    NoteAlreadyExist,
}

/// Persistence operations on notes.
pub trait NoteRepository {
    /// Persists a freshly created note.
    fn create(&self, note: &Note) -> Result<(), NoteRepositoryError>;

    /// Looks a note up by its identifier.
    fn get_by_id(&self, id: uuid::Uuid) -> Result<Note, NoteRepositoryError>;

    /// Returns every note of one owner.
    fn get_by_owner(&self, owner_id: uuid::Uuid) -> Result<Vec<Note>, NoteRepositoryError>;

    /// Overwrites a persisted note.
    fn update(&self, note: Note) -> Result<(), NoteRepositoryError>;

    /// Removes a note by its identifier.
    fn delete(&self, id: uuid::Uuid) -> Result<(), NoteRepositoryError>;
}

} // verus!
