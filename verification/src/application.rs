//! A second shape of the create-note flow: the use case takes the owner as
//! a separate argument and reports success without a data payload. The
//! validation and the error translation are the same as the interactor's.

use vstd::prelude::*;

use crate::note::{Note, NoteError};
use crate::repository::{NoteRepository, NoteRepositoryError};
use crate::text::is_blank;

verus! {

/// The caller's request: what the note holds.
pub struct CreateNoteInput {
    pub title: String,
    pub summary: Option<String>,
    pub content: String,
}

/// A failure of the create-note use case.
#[derive(Debug)]
pub enum CreateNoteUseCaseError {
    /// The title was empty or whitespace-only.
    EmptyTitle,
    /// The content was empty or whitespace-only.
    EmptyContent,
    /// The repository reported a duplicate identifier.
    NoteAlreadyExist,
    /// The repository failed for an unrecognized reason.
    UnknownError,
}

/// Entity validation followed by persistence, reporting only whether the
/// note was created.
pub struct CreateNoteUseCase<R: NoteRepository> {
    pub repo: R,
}

impl<R: NoteRepository> CreateNoteUseCase<R> {
    /// Wraps a repository.
    pub fn new(repo: R) -> (r: Self)
        ensures
            r.repo == repo,
    {
        CreateNoteUseCase { repo }
    }

    /// Validates the input by constructing a note and persists it. A blank
    /// title is rejected as `EmptyTitle` (checked first), a blank content
    /// as `EmptyContent`; on valid input only the repository decides
    /// between success, `NoteAlreadyExist` and `UnknownError`.
    pub fn execute(&self, input: CreateNoteInput, user_id: uuid::Uuid) -> (r: Result<
        (),
        CreateNoteUseCaseError,
    >)
        ensures
            is_blank(input.title@) ==> r == Err::<(), CreateNoteUseCaseError>(
                CreateNoteUseCaseError::EmptyTitle,
            ),
            !is_blank(input.title@) && is_blank(input.content@) ==> r == Err::<
                (),
                CreateNoteUseCaseError,
            >(CreateNoteUseCaseError::EmptyContent),
            !is_blank(input.title@) && !is_blank(input.content@) ==> (r == Ok::<
                (),
                CreateNoteUseCaseError,
            >(()) || r == Err::<(), CreateNoteUseCaseError>(CreateNoteUseCaseError::NoteAlreadyExist)
                || r == Err::<(), CreateNoteUseCaseError>(CreateNoteUseCaseError::UnknownError)),
    {
        let CreateNoteInput { title, summary, content } = input;
        let note = match Note::new(title, summary, content, user_id) {
            Ok(note) => note,
            Err(e) => {
                return Err(
                    match e {
                        NoteError::EmptyTitle => CreateNoteUseCaseError::EmptyTitle,
                        NoteError::EmptyContent => CreateNoteUseCaseError::EmptyContent,
                    },
                );
            },
        };
        if let Err(e) = self.repo.create(&note) {
            return Err(
                match e {
                    NoteRepositoryError::NoteAlreadyExist => CreateNoteUseCaseError::NoteAlreadyExist,
                    _ => CreateNoteUseCaseError::UnknownError,
                },
            );
        }
        Ok(())
    }
}

} // verus!
