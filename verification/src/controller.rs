//! The controller over the create-note use case: it forwards the caller's
//! request to any implementation of the use-case interface and rewrites the
//! use case's errors into the controller's own taxonomy, where the two
//! validation failures become one `InvalidNote` variant with a detail text.

use vstd::prelude::*;
use vstd::string::StringExecFns;

use crate::create_note::{CreateNoteError, CreateNoteInput, CreateNoteInterface};
use crate::text::is_blank;

verus! {

/// The caller's request as the controller receives it.
pub struct CreateNoteControllerInputDTO {
    pub user_id: uuid::Uuid,
    pub title: String,
    pub summary: Option<String>,
    pub content: String,
}

/// The created note as the controller reports it.
pub struct CreateNoteControllerOutputDTO {
    pub id: uuid::Uuid,
    pub title: String,
    pub summary: Option<String>,
    pub content: String,
}

/// A failure as the controller reports it.
#[derive(Debug)]
pub enum CreateNoteControllerError {
    /// The input failed validation; `detail` names the rejected field.
    InvalidNote { detail: String },
    /// The repository reported a duplicate identifier.
    NoteAlreadyExist,
    /// The use case failed for an unrecognized reason.
    UnknownError,
}

/// Forwards requests to a create-note use case.
pub struct CreateNoteController<U> {
    pub use_case: U,
}

impl<U: CreateNoteInterface> CreateNoteController<U> {
    /// Runs the use case and rewrites its result: a blank title is
    /// reported as `InvalidNote` with detail "Empty title" (checked
    /// first), a blank content as `InvalidNote` with detail
    /// "Empty content"; on valid input the result is the created note's
    /// data — echoing the input's title, summary and content — or
    /// `NoteAlreadyExist` or `UnknownError`, as the use case decided.
    pub fn execute(&self, input: CreateNoteControllerInputDTO) -> (r: Result<
        CreateNoteControllerOutputDTO,
        CreateNoteControllerError,
    >)
        ensures
            is_blank(input.title@) ==> (r matches Err(CreateNoteControllerError::InvalidNote {
                detail }) && detail@ == "Empty title"@),
            !is_blank(input.title@) && is_blank(input.content@) ==> (r matches Err(
                CreateNoteControllerError::InvalidNote { detail },
            ) && detail@ == "Empty content"@),
            r matches Ok(out) ==> out.title == input.title && out.summary == input.summary
                && out.content == input.content,
            !is_blank(input.title@) && !is_blank(input.content@) ==> (r matches Ok(_) || r == Err::<
                CreateNoteControllerOutputDTO,
                CreateNoteControllerError,
            >(CreateNoteControllerError::NoteAlreadyExist) || r == Err::<
                CreateNoteControllerOutputDTO,
                CreateNoteControllerError,
            >(CreateNoteControllerError::UnknownError)),
    {
        let note = match self.use_case.execute(
            CreateNoteInput {
                user_id: input.user_id,
                title: input.title,
                summary: input.summary,
                content: input.content,
            },
        ) {
            Ok(note) => note,
            Err(e) => {
                return Err(
                    match e {
                        CreateNoteError::EmptyTitle => (CreateNoteControllerError::InvalidNote {
                            detail: String::from_str("Empty title"),
                        }),
                        CreateNoteError::EmptyContent => (CreateNoteControllerError::InvalidNote {
                            detail: String::from_str("Empty content"),
                        }),
                        CreateNoteError::NoteAlreadyExist => CreateNoteControllerError::NoteAlreadyExist,
                        CreateNoteError::UnknownError => CreateNoteControllerError::UnknownError,
                    },
                );
            },
        };
        Ok(
            CreateNoteControllerOutputDTO {
                id: note.id,
                title: note.title,
                summary: note.summary,
                content: note.content,
            },
        )
    }
}

} // verus!
