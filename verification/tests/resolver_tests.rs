use chatlog::db::{edited_buffer, incoming_buffer, EditedMessage, IncomingMessage, InsertOutcome};
use chatlog::resolver::{resolve, resolve_deleted, resolve_pending, resolve_stored, StoreAnswer};

fn incoming_row(chat_id: i64, message_id: i64, text: &str) -> IncomingMessage {
    IncomingMessage {
        date_time: 1,
        message: text.to_string(),
        chat_title: String::new(),
        chat_id,
        username: vec![],
        first_name: String::new(),
        second_name: String::new(),
        user_id: 0,
        message_id,
        chat_usernames: vec![],
        reply_to: 0,
        client_id: 0,
    }
}

fn edit_row(chat_id: i64, message_id: i64, text: &str) -> EditedMessage {
    EditedMessage {
        date_time: 1,
        chat_id,
        message_id,
        original_message: String::new(),
        message: text.to_string(),
        diff: String::new(),
        user_id: 0,
        client_id: 0,
    }
}

fn store(edited: Option<&str>, incoming: Option<&str>) -> StoreAnswer {
    StoreAnswer { edited: edited.map(|s| s.to_string()), incoming: incoming.map(|s| s.to_string()) }
}

#[test]
fn pending_edit_is_preferred_to_everything_in_the_store() {
    let mut edits = edited_buffer();
    let mut incoming = incoming_buffer();
    edits.push(edit_row(1, 10, "pending edit"));
    incoming.push(incoming_row(1, 10, "pending original"));
    let out = resolve(&edits, store(Some("stored edit"), Some("stored original")), &incoming, 1, 10);
    assert_eq!(out, Some("pending edit".to_string()));
}

#[test]
fn stored_edit_is_preferred_to_stored_original() {
    let edits = edited_buffer();
    let mut incoming = incoming_buffer();
    incoming.push(incoming_row(1, 10, "pending original"));
    let out = resolve(&edits, store(Some("stored edit"), Some("stored original")), &incoming, 1, 10);
    assert_eq!(out, Some("stored edit".to_string()));
    let out = resolve(&edits, store(None, Some("stored original")), &incoming, 1, 10);
    assert_eq!(out, Some("stored original".to_string()));
}

#[test]
fn pending_original_answers_when_the_store_knows_nothing() {
    let edits = edited_buffer();
    let mut incoming = incoming_buffer();
    incoming.push(incoming_row(1, 10, "pending original"));
    assert_eq!(resolve(&edits, store(None, None), &incoming, 1, 10), Some("pending original".to_string()));
    assert_eq!(resolve(&edits, store(Some(""), None), &incoming, 1, 10), Some("pending original".to_string()));
}

#[test]
fn unknown_message_resolves_to_nothing() {
    let mut edits = edited_buffer();
    let mut incoming = incoming_buffer();
    edits.push(edit_row(1, 11, "other message"));
    incoming.push(incoming_row(2, 10, "other chat"));
    assert_eq!(resolve(&edits, store(None, None), &incoming, 1, 10), None);
}

#[test]
fn empty_pending_edit_falls_through_to_the_store() {
    let mut edits = edited_buffer();
    let incoming = incoming_buffer();
    edits.push(edit_row(1, 10, "old"));
    edits.push(edit_row(1, 10, ""));
    assert_eq!(resolve_pending(&edits, 1, 10), None);
    let out = resolve(&edits, store(Some("stored edit"), None), &incoming, 1, 10);
    assert_eq!(out, Some("stored edit".to_string()));
}

#[test]
fn newest_pending_edit_wins_among_pending_edits() {
    let mut edits = edited_buffer();
    edits.push(edit_row(1, 10, "first edit"));
    edits.push(edit_row(1, 10, "second edit"));
    assert_eq!(resolve_pending(&edits, 1, 10), Some("second edit".to_string()));
}

#[test]
fn flushed_rows_are_no_longer_found_in_the_buffer() {
    let mut edits = edited_buffer();
    let incoming = incoming_buffer();
    edits.push(edit_row(1, 10, "pending edit"));
    edits.push(edit_row(1, 11, "another"));
    let n = edits.flush(|_: &str, _: Vec<EditedMessage>| InsertOutcome::Committed);
    assert_eq!(n, 2);
    assert_eq!(edits.find_message(1, 10), None);
    assert_eq!(edits.find_message(1, 11), None);
    assert_eq!(resolve_pending(&edits, 1, 10), None);
    let out = resolve(&edits, store(Some("pending edit"), None), &incoming, 1, 10);
    assert_eq!(out, Some("pending edit".to_string()));
}

#[test]
fn resolve_stored_skips_the_pending_edits() {
    let mut incoming = incoming_buffer();
    incoming.push(incoming_row(1, 10, "pending original"));
    assert_eq!(resolve_stored(store(Some("e"), Some("i")), &incoming, 1, 10), Some("e".to_string()));
    assert_eq!(resolve_stored(store(None, None), &incoming, 1, 10), Some("pending original".to_string()));
    assert_eq!(resolve_stored(store(None, None), &incoming, 1, 99), None);
}

#[test]
fn store_answer_prefers_the_edit_history() {
    assert_eq!(store(Some("e"), Some("i")).content(), Some("e".to_string()));
    assert_eq!(store(None, Some("i")).content(), Some("i".to_string()));
    assert_eq!(store(None, None).content(), None);
}

#[test]
fn deleted_message_falls_back_to_its_id() {
    assert_eq!(resolve_deleted(store(Some("e"), Some("i")), 42), "e");
    assert_eq!(resolve_deleted(store(None, Some("i")), 42), "i");
    assert_eq!(resolve_deleted(store(None, None), 42), "42");
    assert_eq!(resolve_deleted(store(None, None), -7), "-7");
}
