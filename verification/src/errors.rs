//! An application-level error that carries either layer's failure through
//! unchanged: a validation error of the entity or a repository error, each
//! embedded by a total, lossless conversion.

use vstd::prelude::*;

use crate::note::NoteError;
use crate::repository::NoteRepositoryError;

verus! {

/// Either layer's failure, tagged by where it arose.
#[derive(Debug)]
pub enum NoteApplicationError {
    /// The entity rejected the input.
    ValidationError(NoteError),
    /// The persistence collaborator failed.
    RepositoryError(NoteRepositoryError),
}

impl From<NoteError> for NoteApplicationError {
    /// Embeds a validation error unchanged.
    fn from(e: NoteError) -> (r: NoteApplicationError) {
        NoteApplicationError::ValidationError(e)
    }
}

impl vstd::std_specs::convert::FromSpecImpl<NoteError> for NoteApplicationError {
    open spec fn obeys_from_spec() -> bool {
        true
    }

    open spec fn from_spec(e: NoteError) -> NoteApplicationError {
        NoteApplicationError::ValidationError(e)
    }
}

impl From<NoteRepositoryError> for NoteApplicationError {
    /// Embeds a repository error unchanged.
    fn from(e: NoteRepositoryError) -> (r: NoteApplicationError) {
        NoteApplicationError::RepositoryError(e)
    }
}

impl vstd::std_specs::convert::FromSpecImpl<NoteRepositoryError> for NoteApplicationError {
    open spec fn obeys_from_spec() -> bool {
        true
    }

    open spec fn from_spec(e: NoteRepositoryError) -> NoteApplicationError {
        NoteApplicationError::RepositoryError(e)
    }
}

} // verus!
