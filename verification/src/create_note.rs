//! The create-note use case: validate the input by constructing the entity,
//! persist it through the repository, and translate every failure into a
//! use-case-level error. Any failure is terminal for the call.

use vstd::prelude::*;

use crate::note::{Note, NoteError};
use crate::repository::{NoteRepository, NoteRepositoryError};
use crate::text::is_blank;

verus! {

/// The caller's request: who creates the note and what it holds.
pub struct CreateNoteInput {
    pub user_id: uuid::Uuid,
    pub title: String,
    pub summary: Option<String>,
    pub content: String,
}

/// The data handed back to the caller on success.
pub struct CreateNoteOutput {
    pub id: uuid::Uuid,
    pub title: String,
    pub summary: Option<String>,
    pub content: String,
}

/// A failure of the create-note use case: the entity's validation errors,
/// the recognized repository conflict, and a catch-all for any repository
/// failure not explicitly recognized.
#[derive(Debug)]
pub enum CreateNoteError {
    /// The title was empty or whitespace-only.
    EmptyTitle,
    /// The content was empty or whitespace-only.
    EmptyContent,
    /// The repository reported a duplicate identifier.
    NoteAlreadyExist,
    /// The repository failed for an unrecognized reason.
    UnknownError,
}

/// The total translation of an entity validation failure into the use
/// case's error taxonomy.
pub fn note_error_to_create_error(e: NoteError) -> (r: CreateNoteError)
    ensures
        e == NoteError::EmptyTitle ==> r == CreateNoteError::EmptyTitle,
        e == NoteError::EmptyContent ==> r == CreateNoteError::EmptyContent,
{
    match e {
        NoteError::EmptyTitle => CreateNoteError::EmptyTitle,
        NoteError::EmptyContent => CreateNoteError::EmptyContent,
    }
}

/// The total translation of a repository failure into the use case's error
/// taxonomy: the duplicate-identifier conflict is recognized, anything else
/// is opaque to the caller.
pub fn repository_error_to_create_error(e: NoteRepositoryError) -> (r: CreateNoteError)
    ensures
        e == NoteRepositoryError::NoteAlreadyExist ==> r == CreateNoteError::NoteAlreadyExist,
        e != NoteRepositoryError::NoteAlreadyExist ==> r == CreateNoteError::UnknownError,
{
    match e {
        NoteRepositoryError::NoteAlreadyExist => CreateNoteError::NoteAlreadyExist,
        _ => CreateNoteError::UnknownError,
    }
}

/// The use case as its callers see it. An implementation validates before
/// it persists: a blank title is rejected as `EmptyTitle` (checked first),
/// a blank content as `EmptyContent`; on valid input only the repository
/// decides between success, `NoteAlreadyExist` and `UnknownError`, and a
/// successful output echoes the input's title, summary and content.
pub trait CreateNoteInterface {
    fn execute(&self, input: CreateNoteInput) -> (r: Result<CreateNoteOutput, CreateNoteError>)
        ensures
            is_blank(input.title@) ==> r == Err::<CreateNoteOutput, CreateNoteError>(
                CreateNoteError::EmptyTitle,
            ),
            !is_blank(input.title@) && is_blank(input.content@) ==> r == Err::<
                CreateNoteOutput,
                CreateNoteError,
            >(CreateNoteError::EmptyContent),
            r matches Ok(out) ==> out.title == input.title && out.summary == input.summary
                && out.content == input.content && !is_blank(input.title@) && !is_blank(
                input.content@,
            ),
            !is_blank(input.title@) && !is_blank(input.content@) ==> (r matches Ok(_) || r == Err::<
                CreateNoteOutput,
                CreateNoteError,
            >(CreateNoteError::NoteAlreadyExist) || r == Err::<CreateNoteOutput, CreateNoteError>(
                CreateNoteError::UnknownError,
            )),
    ;
}

/// The one interactor of the crate: entity validation followed by a call
/// to the repository, with both layers' failures mapped into
/// `CreateNoteError`.
pub struct CreateNoteInteractor<R: NoteRepository> {
    repo: R,
}

impl<R: NoteRepository> CreateNoteInteractor<R> {
    /// Wraps a repository.
    pub fn new(repo: R) -> Self {
        CreateNoteInteractor { repo }
    }
}

impl<R: NoteRepository> CreateNoteInterface for CreateNoteInteractor<R> {
    fn execute(&self, input: CreateNoteInput) -> (r: Result<CreateNoteOutput, CreateNoteError>) {
        let CreateNoteInput { user_id, title, summary, content } = input;
        let note = match Note::new(title, summary, content, user_id) {
            Ok(note) => note,
            Err(e) => {
                return Err(note_error_to_create_error(e));
            },
        };
        if let Err(e) = self.repo.create(&note) {
            return Err(repository_error_to_create_error(e));
        }
        Ok(
            CreateNoteOutput {
                id: note.id,
                title: note.title,
                summary: note.summary,
                content: note.content,
            },
        )
    }
}

} // verus!
