//! The `Note` entity: a user-authored note with self-validating
//! construction and mutation. A note's title and content are never empty or
//! whitespace-only after any successful operation; `id` and `owner_id` are
//! fixed at construction; `updated_at` is refreshed by every mutation.

use vstd::prelude::*;

use crate::clock;
use crate::ids;
use crate::text::{is_blank, str_is_blank};

verus! {

/// A single user-authored note.
///
/// Timestamps are milliseconds since the Unix epoch, as the wall clock
/// reports them.
#[derive(Debug)]
pub struct Note {
    pub id: uuid::Uuid,
    pub title: String,
    pub summary: Option<String>,
    pub content: String,
    pub owner_id: uuid::Uuid,
    pub created_at: i64,
    pub updated_at: i64,
}

/// A validation failure raised by the entity.
#[derive(Debug)]
pub enum NoteError {
    /// The title was empty or whitespace-only.
    EmptyTitle,
    /// The content was empty or whitespace-only.
    EmptyContent,
}

impl Note {
    /// Well-formedness: title and content are not blank, and the note was
    /// never updated before it was created.
    pub open spec fn wf(self) -> bool {
        &&& !is_blank(self.title@)
        &&& !is_blank(self.content@)
        &&& self.created_at <= self.updated_at
    }

    /// The note as `edit` leaves it when it replaces the content at
    /// instant `now`.
    pub open spec fn edited(self, content: String, now: i64) -> Note {
        Note {
            id: self.id,
            title: self.title,
            summary: self.summary,
            content: content,
            owner_id: self.owner_id,
            created_at: self.created_at,
            updated_at: now,
        }
    }

    /// The note as `rename` leaves it when it replaces the title at
    /// instant `now`.
    pub open spec fn renamed(self, title: String, now: i64) -> Note {
        Note {
            id: self.id,
            title: title,
            summary: self.summary,
            content: self.content,
            owner_id: self.owner_id,
            created_at: self.created_at,
            updated_at: now,
        }
    }

    /// The note as `update_summary` leaves it when it replaces the summary
    /// at instant `now`.
    pub open spec fn summarized(self, summary: String, now: i64) -> Note {
        Note {
            id: self.id,
            title: self.title,
            summary: Some(summary),
            content: self.content,
            owner_id: self.owner_id,
            created_at: self.created_at,
            updated_at: now,
        }
    }

    /// Validated constructor. The title is checked before the content; on
    /// success the note carries the given fields, a fresh identifier, and
    /// `created_at == updated_at`, the instant of construction.
    pub fn new(title: String, summary: Option<String>, content: String, owner_id: uuid::Uuid) -> (r:
        Result<Note, NoteError>)
        ensures
            is_blank(title@) ==> r == Err::<Note, NoteError>(NoteError::EmptyTitle),
            !is_blank(title@) && is_blank(content@) ==> r == Err::<Note, NoteError>(
                NoteError::EmptyContent,
            ),
            !is_blank(title@) && !is_blank(content@) ==> (r matches Ok(n) && n.title == title
                && n.summary == summary && n.content == content && n.owner_id == owner_id
                && n.created_at == n.updated_at && n.wf()),
    {
        let now = clock::now_timestamp_millis();
        let id = ids::fresh_note_id();
        if str_is_blank(title.as_str()) {
            return Err(NoteError::EmptyTitle);
        }
        if str_is_blank(content.as_str()) {
            return Err(NoteError::EmptyContent);
        }
        Ok(Note { id, title, summary, content, owner_id, created_at: now, updated_at: now })
    }

    /// Replaces the content at instant `now`. A blank content is rejected
    /// and the note is left exactly as it was.
    pub fn edit_at(&mut self, content: String, now: i64) -> (r: Result<(), NoteError>)
        ensures
            is_blank(content@) ==> r == Err::<(), NoteError>(NoteError::EmptyContent)
                && *final(self) == *old(self),
            !is_blank(content@) ==> r == Ok::<(), NoteError>(())
                && *final(self) == old(self).edited(content, now),
    {
        if str_is_blank(content.as_str()) {
            return Err(NoteError::EmptyContent);
        }
        self.content = content;
        self.updated_at = now;
        Ok(())
    }

    /// Replaces the content, stamping `updated_at` with the current
    /// instant. A blank content is rejected and the note — content and
    /// timestamp included — is left exactly as it was.
    pub fn edit(&mut self, content: String) -> (r: Result<(), NoteError>)
        ensures
            is_blank(content@) ==> r == Err::<(), NoteError>(NoteError::EmptyContent)
                && *final(self) == *old(self),
            !is_blank(content@) ==> r == Ok::<(), NoteError>(()) && (exists|now: i64|
                *final(self) == old(self).edited(content, now)),
    {
        let now = clock::now_timestamp_millis();
        self.edit_at(content, now)
    }

    /// Replaces the title at instant `now`. A blank title is rejected and
    /// the note is left exactly as it was.
    pub fn rename_at(&mut self, title: String, now: i64) -> (r: Result<(), NoteError>)
        ensures
            is_blank(title@) ==> r == Err::<(), NoteError>(NoteError::EmptyTitle)
                && *final(self) == *old(self),
            !is_blank(title@) ==> r == Ok::<(), NoteError>(())
                && *final(self) == old(self).renamed(title, now),
    {
        if str_is_blank(title.as_str()) {
            return Err(NoteError::EmptyTitle);
        }
        self.title = title;
        self.updated_at = now;
        Ok(())
    }

    /// Replaces the title, stamping `updated_at` with the current instant.
    /// A blank title is rejected and the note is left exactly as it was.
    pub fn rename(&mut self, title: String) -> (r: Result<(), NoteError>)
        ensures
            is_blank(title@) ==> r == Err::<(), NoteError>(NoteError::EmptyTitle)
                && *final(self) == *old(self),
            !is_blank(title@) ==> r == Ok::<(), NoteError>(()) && (exists|now: i64|
                *final(self) == old(self).renamed(title, now)),
    {
        let now = clock::now_timestamp_millis();
        self.rename_at(title, now)
    }

    /// Replaces the summary at instant `now`. There is no failure mode:
    /// the summary carries no validation constraint.
    pub fn update_summary_at(&mut self, summary: String, now: i64)
        ensures
            *final(self) == old(self).summarized(summary, now),
    {
        self.summary = Some(summary);
        self.updated_at = now;
    }

    /// Replaces the summary unconditionally, stamping `updated_at` with
    /// the current instant.
    pub fn update_summary(&mut self, summary: String)
        ensures
            exists|now: i64| *final(self) == old(self).summarized(summary, now),
    {
        let now = clock::now_timestamp_millis();
        self.update_summary_at(summary, now);
    }
}

/// On success, a mutation stamps `updated_at` with the instant it was
/// given: taken at an instant strictly later than the note's previous
/// update, `edit`, `rename` and `update_summary` each strictly increase
/// `updated_at`.
pub proof fn lemma_mutations_advance_updated_at(
    n: Note,
    title: String,
    summary: String,
    content: String,
    now: i64,
)
    requires
        now > n.updated_at,
    ensures
        n.edited(content, now).updated_at > n.updated_at,
        n.renamed(title, now).updated_at > n.updated_at,
        n.summarized(summary, now).updated_at > n.updated_at,
{
}

/// A mutation taken at an instant no earlier than the note's previous
/// update preserves well-formedness, and no mutation ever touches `id`,
/// `owner_id` or `created_at`.
pub proof fn lemma_mutations_preserve_wf(
    n: Note,
    title: String,
    summary: String,
    content: String,
    now: i64,
)
    requires
        n.wf(),
        now >= n.updated_at,
    ensures
        !is_blank(content@) ==> n.edited(content, now).wf(),
        !is_blank(title@) ==> n.renamed(title, now).wf(),
        n.summarized(summary, now).wf(),
        n.edited(content, now).id == n.id && n.edited(content, now).owner_id == n.owner_id
            && n.edited(content, now).created_at == n.created_at,
        n.renamed(title, now).id == n.id && n.renamed(title, now).owner_id == n.owner_id
            && n.renamed(title, now).created_at == n.created_at,
        n.summarized(summary, now).id == n.id && n.summarized(summary, now).owner_id == n.owner_id
            && n.summarized(summary, now).created_at == n.created_at,
{
}

} // verus!
