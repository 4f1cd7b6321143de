use notes_core::note::{Note, NoteError};

#[test]
fn test_note_creation_success() {
    let title = "Testing title".to_string();
    let summary = Some("A short description of the note".to_string());
    let content = "The content of the note to be created.".to_string();
    let owner_id = uuid::Uuid::now_v7();

    let note = Note::new(title.clone(), summary.clone(), content.clone(), owner_id)
        .expect("Failed to create note");

    assert_eq!(note.title, title);
    assert_eq!(note.summary, summary);
    assert_eq!(note.content, content);
    assert_eq!(note.owner_id, owner_id);
}

#[test]
fn test_note_creation_empty_title_should_fail() {
    let note = Note::new(
        "".to_string(),
        Some("summary".to_string()),
        "content".to_string(),
        uuid::Uuid::now_v7(),
    );
    assert!(matches!(note, Err(NoteError::EmptyTitle)));
}

#[test]
fn test_note_creation_empty_content_should_fail() {
    let note = Note::new(
        "title".to_string(),
        Some("summary".to_string()),
        "".to_string(),
        uuid::Uuid::now_v7(),
    );
    assert!(matches!(note, Err(NoteError::EmptyContent)));
}

#[test]
fn creation_sets_equal_timestamps_and_nonnegative_clock() {
    let note = Note::new(
        "title".to_string(),
        None,
        "content".to_string(),
        uuid::Uuid::now_v7(),
    )
    .expect("Failed to create note");
    assert_eq!(note.created_at, note.updated_at);
    assert!(note.created_at >= 0);
}

#[test]
fn creation_whitespace_title_fails_before_content() {
    // Title is checked first: both fields blank still reports the title.
    let note = Note::new(
        "   ".to_string(),
        None,
        "  \t".to_string(),
        uuid::Uuid::now_v7(),
    );
    assert!(matches!(note, Err(NoteError::EmptyTitle)));
}

#[test]
fn creation_whitespace_content_fails_when_title_valid() {
    let note = Note::new(
        "title".to_string(),
        None,
        "  \t".to_string(),
        uuid::Uuid::now_v7(),
    );
    assert!(matches!(note, Err(NoteError::EmptyContent)));
}

#[test]
fn edit_with_blank_content_leaves_note_unchanged() {
    let mut note = Note::new(
        "title".to_string(),
        None,
        "original content".to_string(),
        uuid::Uuid::now_v7(),
    )
    .expect("Failed to create note");
    let updated_before = note.updated_at;

    let r = note.edit("".to_string());
    assert!(matches!(r, Err(NoteError::EmptyContent)));
    assert_eq!(note.content, "original content".to_string());
    assert_eq!(note.updated_at, updated_before);

    let r = note.edit("   ".to_string());
    assert!(matches!(r, Err(NoteError::EmptyContent)));
    assert_eq!(note.content, "original content".to_string());
    assert_eq!(note.updated_at, updated_before);
}

#[test]
fn edit_replaces_content_and_stamps_instant() {
    let mut note = Note::new(
        "title".to_string(),
        None,
        "original content".to_string(),
        uuid::Uuid::now_v7(),
    )
    .expect("Failed to create note");
    let later = note.updated_at + 25;

    let r = note.edit_at("new content".to_string(), later);
    assert!(r.is_ok());
    assert_eq!(note.content, "new content".to_string());
    assert_eq!(note.title, "title".to_string());
    assert_eq!(note.updated_at, later);
    assert!(note.updated_at > note.created_at);
}

#[test]
fn rename_with_blank_title_leaves_note_unchanged() {
    let mut note = Note::new(
        "old title".to_string(),
        None,
        "content".to_string(),
        uuid::Uuid::now_v7(),
    )
    .expect("Failed to create note");
    let updated_before = note.updated_at;

    let r = note.rename("  ".to_string());
    assert!(matches!(r, Err(NoteError::EmptyTitle)));
    assert_eq!(note.title, "old title".to_string());
    assert_eq!(note.updated_at, updated_before);
}

#[test]
fn rename_replaces_title_and_stamps_instant() {
    let mut note = Note::new(
        "old title".to_string(),
        None,
        "content".to_string(),
        uuid::Uuid::now_v7(),
    )
    .expect("Failed to create note");
    let later = note.updated_at + 7;

    let r = note.rename_at("new title".to_string(), later);
    assert!(r.is_ok());
    assert_eq!(note.title, "new title".to_string());
    assert_eq!(note.content, "content".to_string());
    assert_eq!(note.updated_at, later);
    assert!(note.updated_at > note.created_at);
}

#[test]
fn update_summary_replaces_summary_and_stamps_instant() {
    let mut note = Note::new(
        "title".to_string(),
        Some("old".to_string()),
        "content".to_string(),
        uuid::Uuid::now_v7(),
    )
    .expect("Failed to create note");
    let later = note.updated_at + 3;

    note.update_summary_at("new".to_string(), later);
    assert_eq!(note.summary, Some("new".to_string()));
    assert_eq!(note.updated_at, later);
    assert!(note.updated_at > note.created_at);
}

#[test]
fn update_summary_sets_summary_where_none_was() {
    let mut note = Note::new(
        "title".to_string(),
        None,
        "content".to_string(),
        uuid::Uuid::now_v7(),
    )
    .expect("Failed to create note");
    note.update_summary("fresh".to_string());
    assert_eq!(note.summary, Some("fresh".to_string()));
}

#[test]
fn mutations_keep_id_owner_and_created_at() {
    let owner_id = uuid::Uuid::now_v7();
    let mut note = Note::new("title".to_string(), None, "content".to_string(), owner_id)
        .expect("Failed to create note");
    let id = note.id;
    let created = note.created_at;
    let later = note.updated_at + 1;

    note.edit_at("other content".to_string(), later)
        .expect("edit failed");
    note.rename_at("other title".to_string(), later + 1)
        .expect("rename failed");
    note.update_summary_at("s".to_string(), later + 2);

    assert_eq!(note.id, id);
    assert_eq!(note.owner_id, owner_id);
    assert_eq!(note.created_at, created);
}
