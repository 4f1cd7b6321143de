//! A note-management domain layer.
//!
//! The crate owns the validation and orchestration rules for a single
//! `Note` entity: a validated constructor, in-place mutations that keep the
//! entity well formed, a repository abstraction for persistence, and a
//! create-note use case that translates entity and repository failures into
//! caller-facing error types.

pub mod application;
pub mod clock;
pub mod controller;
pub mod create_note;
pub mod errors;
pub mod ids;
pub mod note;
pub mod repository;
pub mod text;
