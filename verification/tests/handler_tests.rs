use chatlog::db::{deleted_buffer, edited_buffer, incoming_buffer};
use chatlog::handlers::auto_cat::{handle_auto_cat, CHAT_ID};
use chatlog::handlers::deleted::save_deleted;
use chatlog::handlers::edited::{edit_needs_lookup, edited_row, save_edited, unified_diff};
use chatlog::handlers::incoming::{incoming_row, reply_to_of, save_incoming};
use chatlog::handlers::outgoing::{save_outgoing, topic_to_name};
use chatlog::handlers::{
    fetch_topic_name, get_topic_id, get_topic_name, topic_name, ForumTopic, Message,
    MessageDeletion, Peer, ReplyHeader, TopicNames,
};

fn user(id: i64, username: Option<&str>, first: Option<&str>, last: Option<&str>) -> Peer {
    Peer::User {
        id: Some(id),
        username: username.map(|s| s.to_string()),
        first_name: first.map(|s| s.to_string()),
        last_name: last.map(|s| s.to_string()),
    }
}

fn group(title: Option<&str>) -> Peer {
    Peer::Group { id: Some(77), title: title.map(|s| s.to_string()), usernames: vec!["grp".to_string()] }
}

fn channel(title: &str) -> Peer {
    Peer::Channel { id: Some(88), title: title.to_string(), usernames: vec!["chan".to_string(), "chan2".to_string()] }
}

fn message(text: &str) -> Message {
    Message {
        id: 10,
        outgoing: false,
        date: 1_700_000_000,
        text: text.to_string(),
        raw: "{\"raw\":true}".to_string(),
        chat_id: 500,
        peer: Some(group(Some("The Group"))),
        sender: Some(user(42, Some("alice"), Some("Alice"), Some("A"))),
        reply_to_message_id: None,
        reply_header: None,
    }
}

#[test]
fn identical_texts_diff_to_nothing() {
    assert_eq!(unified_diff("a\nb", "a\nb"), "");
    assert_eq!(unified_diff("", ""), "");
    assert_eq!(unified_diff("same", "same"), "");
    assert_eq!(unified_diff("a\n", "a"), "");
}

#[test]
fn changed_line_is_removed_and_added_with_context() {
    let diff = unified_diff("a\nb", "a\nc");
    assert_eq!(diff, "--- original\n+++ modified\n a\n-b\n+c");
    let rows: Vec<&str> = diff.lines().collect();
    assert_eq!(rows.iter().filter(|r| r.starts_with('-') && !r.starts_with("---")).count(), 1);
    assert_eq!(rows.iter().filter(|r| r.starts_with('+') && !r.starts_with("+++")).count(), 1);
    assert!(rows.contains(&" a"));
    assert!(rows.contains(&"-b"));
    assert!(rows.contains(&"+c"));
}

#[test]
fn longer_and_shorter_texts_diff_line_by_line() {
    assert_eq!(unified_diff("a", "a\nb"), "--- original\n+++ modified\n a\n+b");
    assert_eq!(unified_diff("a\nb", "a"), "--- original\n+++ modified\n a\n-b");
    assert_eq!(unified_diff("", "x"), "--- original\n+++ modified\n+x");
    assert_eq!(unified_diff("x\ny", "y\nx"), "--- original\n+++ modified\n-x\n+y\n-y\n+x");
}

#[test]
fn edit_without_visible_change_writes_no_row() {
    let mut edits = edited_buffer();
    let m = message("same text");
    assert!(!save_edited(&m, Some("same text".to_string()), 5, 9, &mut edits));
    assert!(edits.is_empty());
    assert!(!save_edited(&m, Some(String::new()), 5, 9, &mut edits));
    assert!(!save_edited(&m, None, 5, 9, &mut edits));
    assert!(!save_edited(&message(""), Some("before".to_string()), 5, 9, &mut edits));
    assert!(edits.is_empty());
}

#[test]
fn edit_with_change_writes_a_row_with_the_diff() {
    let mut edits = edited_buffer();
    let m = message("a\nc");
    assert!(save_edited(&m, Some("a\nb".to_string()), (1u64 << 32) + 7, 9, &mut edits));
    assert_eq!(edits.len(), 1);
    assert_eq!(edits.find_message(500, 10), Some("a\nc".to_string()));
    let row = edited_row(&m, Some("a\nb".to_string()), (1u64 << 32) + 7, 9).unwrap();
    assert_eq!(row.date_time, 7);
    assert_eq!(row.chat_id, 500);
    assert_eq!(row.message_id, 10);
    assert_eq!(row.original_message, "a\nb");
    assert_eq!(row.message, "a\nc");
    assert_eq!(row.diff, "--- original\n+++ modified\n a\n-b\n+c");
    assert_eq!(row.user_id, 42);
    assert_eq!(row.client_id, 9);
}

#[test]
fn edit_by_unknown_sender_has_user_zero() {
    let mut m = message("new");
    m.sender = None;
    assert_eq!(edited_row(&m, Some("old".to_string()), 1, 1).unwrap().user_id, 0);
    m.sender = Some(Peer::User { id: None, username: None, first_name: None, last_name: None });
    assert_eq!(edited_row(&m, Some("old".to_string()), 1, 1).unwrap().user_id, 0);
    m.sender = Some(channel("c"));
    assert_eq!(edited_row(&m, Some("old".to_string()), 1, 1).unwrap().user_id, 88);
}

#[test]
fn edit_without_text_needs_no_lookup() {
    assert!(edit_needs_lookup(&message("x")));
    assert!(!edit_needs_lookup(&message("")));
}

#[test]
fn incoming_message_becomes_a_row() {
    let mut m = message("hello");
    m.reply_to_message_id = Some(3);
    let row = incoming_row(&m, 9).unwrap();
    assert_eq!(row.date_time, 1_700_000_000);
    assert_eq!(row.message, "hello");
    assert_eq!(row.chat_title, "The Group");
    assert_eq!(row.chat_id, 500);
    assert_eq!(row.username, vec!["alice".to_string()]);
    assert_eq!(row.first_name, "Alice");
    assert_eq!(row.second_name, "A");
    assert_eq!(row.user_id, 42);
    assert_eq!(row.message_id, 10);
    assert_eq!(row.chat_usernames, vec!["grp".to_string()]);
    assert_eq!(row.reply_to, 3);
    assert_eq!(row.client_id, 9);
}

#[test]
fn incoming_message_without_text_records_the_raw_update() {
    let row = incoming_row(&message(""), 9).unwrap();
    assert_eq!(row.message, "{\"raw\":true}");
}

#[test]
fn incoming_message_from_a_channel_has_no_user_fields() {
    let mut m = message("x");
    m.sender = Some(channel("Sender Channel"));
    m.peer = Some(channel("The Channel"));
    let row = incoming_row(&m, 9).unwrap();
    assert_eq!(row.username, Vec::<String>::new());
    assert_eq!(row.first_name, "");
    assert_eq!(row.second_name, "");
    assert_eq!(row.user_id, 0);
    assert_eq!(row.chat_title, "The Channel");
    assert_eq!(row.chat_usernames, vec!["chan".to_string(), "chan2".to_string()]);
}

#[test]
fn incoming_user_without_names_has_one_empty_username() {
    let mut m = message("x");
    m.sender = Some(user(42, None, None, None));
    m.peer = Some(group(None));
    let row = incoming_row(&m, 9).unwrap();
    assert_eq!(row.username, vec![String::new()]);
    assert_eq!(row.first_name, "");
    assert_eq!(row.chat_title, "");
}

#[test]
fn messages_that_are_not_recorded_as_incoming() {
    let mut pending = incoming_buffer();
    let mut m = message("x");
    m.outgoing = true;
    assert!(!save_incoming(&m, 9, &mut pending));
    let mut m = message("x");
    m.peer = None;
    assert!(!save_incoming(&m, 9, &mut pending));
    let mut m = message("x");
    m.peer = Some(user(1, None, None, None));
    assert!(!save_incoming(&m, 9, &mut pending));
    let mut m = message("x");
    m.sender = None;
    assert!(!save_incoming(&m, 9, &mut pending));
    assert!(pending.is_empty());
    assert!(save_incoming(&message("x"), 9, &mut pending));
    assert_eq!(pending.find_message(500, 10), Some("x".to_string()));
}

#[test]
fn reply_target_wraps_like_a_cast() {
    let mut m = message("x");
    assert_eq!(reply_to_of(&m), 0);
    m.reply_to_message_id = Some(17);
    assert_eq!(reply_to_of(&m), 17);
    m.reply_to_message_id = Some(-1);
    assert_eq!(reply_to_of(&m), -1i32 as u64);
}

#[test]
fn timestamp_is_cut_to_32_bits() {
    let mut m = message("x");
    m.date = (1i64 << 32) + 5;
    assert_eq!(incoming_row(&m, 9).unwrap().date_time, 5);
}

#[test]
fn outgoing_message_becomes_a_row() {
    let mut m = message("sent");
    m.outgoing = true;
    m.reply_to_message_id = Some(4);
    m.reply_header = Some(ReplyHeader { forum_topic: true, reply_to_top_id: Some(2), reply_to_msg_id: Some(4) });
    let row = save_outgoing(&m, "General", 9).unwrap();
    assert_eq!(row.date_time, 1_700_000_000);
    assert_eq!(row.message, "sent");
    assert_eq!(row.title, "The Group");
    assert_eq!(row.id, 500);
    assert_eq!(row.admins2, Vec::<String>::new());
    assert_eq!(row.usernames, vec!["grp".to_string()]);
    assert_eq!(row.message_id, 10);
    assert_eq!(row.reply_to, 4);
    assert_eq!(row.raw, "{\"raw\":true}");
    assert_eq!(row.client_id, 9);
    assert_eq!(row.topic_id, 2);
    assert_eq!(row.topic_name, "General");
}

#[test]
fn outgoing_message_to_untitled_chat_is_titled_by_id() {
    let mut m = message("sent");
    m.outgoing = true;
    m.peer = Some(user(1, None, None, None));
    let row = save_outgoing(&m, "ignored", 9).unwrap();
    assert_eq!(row.title, "500");
    assert_eq!(row.usernames, Vec::<String>::new());
    assert_eq!(row.topic_id, 0);
    assert_eq!(row.topic_name, "");
    m.peer = Some(user(1, Some("bob"), None, None));
    let row = save_outgoing(&m, "", 9).unwrap();
    assert_eq!(row.title, "bob");
    assert_eq!(row.usernames, vec!["bob".to_string()]);
    m.peer = Some(channel("Chan"));
    assert_eq!(save_outgoing(&m, "", 9).unwrap().title, "Chan");
}

#[test]
fn messages_that_are_not_recorded_as_outgoing() {
    assert_eq!(save_outgoing(&message("x"), "", 9), None);
    let mut m = message("x");
    m.outgoing = true;
    m.peer = None;
    assert_eq!(save_outgoing(&m, "", 9), None);
}

#[test]
fn topic_id_follows_the_reply_header() {
    let mut m = message("x");
    assert_eq!(get_topic_id(&m), None);
    m.reply_header = Some(ReplyHeader { forum_topic: true, reply_to_top_id: Some(2), reply_to_msg_id: Some(4) });
    assert_eq!(get_topic_id(&m), Some(2));
    m.reply_header = Some(ReplyHeader { forum_topic: true, reply_to_top_id: None, reply_to_msg_id: Some(4) });
    assert_eq!(get_topic_id(&m), Some(4));
    m.reply_header = Some(ReplyHeader { forum_topic: false, reply_to_top_id: None, reply_to_msg_id: Some(4) });
    assert_eq!(get_topic_id(&m), None);
    m.reply_header = Some(ReplyHeader { forum_topic: false, reply_to_top_id: Some(6), reply_to_msg_id: Some(4) });
    assert_eq!(get_topic_id(&m), Some(6));
}

#[test]
fn topic_name_is_the_title_or_the_id() {
    let topics = Some(vec![
        ForumTopic::Deleted,
        ForumTopic::Topic { id: 1, title: "One".to_string() },
        ForumTopic::Topic { id: 2, title: "Two".to_string() },
        ForumTopic::Topic { id: 2, title: "Two again".to_string() },
    ]);
    assert_eq!(topic_name(&topics, 2), "Two");
    assert_eq!(topic_name(&topics, 1), "One");
    assert_eq!(topic_name(&topics, 3), "3");
    assert_eq!(topic_name(&None, 3), "3");
    assert_eq!(topic_name(&Some(vec![]), -3), "-3");
}

#[test]
fn topic_names_are_kept_per_chat_and_topic() {
    let mut cache = TopicNames::new();
    let m = message("x");
    assert_eq!(get_topic_name(&cache, &m, 2), None);
    let topics = Some(vec![ForumTopic::Topic { id: 2, title: "Two".to_string() }]);
    assert_eq!(fetch_topic_name(&mut cache, &m, 2, &topics), "Two");
    assert_eq!(get_topic_name(&cache, &m, 2), Some("Two".to_string()));
    assert_eq!(get_topic_name(&cache, &m, 3), None);
    let mut other = message("x");
    other.chat_id = 501;
    assert_eq!(get_topic_name(&cache, &other, 2), None);
    cache.insert(501, -2, "neg".to_string());
    cache.insert(500, i32::MIN, "min".to_string());
    cache.insert(499, i32::MAX, "max".to_string());
    assert_eq!(cache.get(501, -2), Some("neg".to_string()));
    assert_eq!(cache.get(500, i32::MIN), Some("min".to_string()));
    assert_eq!(cache.get(499, i32::MAX), Some("max".to_string()));
    assert_eq!(cache.get(500, 2), Some("Two".to_string()));
    cache.insert(500, 2, "Renamed".to_string());
    assert_eq!(cache.get(500, 2), Some("Renamed".to_string()));
}

#[test]
fn deletions_become_one_row_each() {
    let mut pending = deleted_buffer();
    let deletion = MessageDeletion { channel_id: Some(500), messages: vec![3, 4, 5] };
    assert_eq!(save_deleted(&deletion, 77, 9, &mut pending), 3);
    let rows = pending.take_batch().unwrap();
    assert_eq!(rows.len(), 3);
    assert_eq!(rows[0].message_id, 3);
    assert_eq!(rows[2].message_id, 5);
    assert_eq!(rows[1].chat_id, 500);
    assert_eq!(rows[1].date_time, 77);
    assert_eq!(rows[1].client_id, 9);
}

#[test]
fn deletions_outside_channels_are_ignored() {
    let mut pending = deleted_buffer();
    let deletion = MessageDeletion { channel_id: None, messages: vec![3, 4, 5] };
    assert_eq!(save_deleted(&deletion, 77, 9, &mut pending), 0);
    assert!(pending.is_empty());
    let deletion = MessageDeletion { channel_id: Some(1), messages: vec![] };
    assert_eq!(save_deleted(&deletion, 77, 9, &mut pending), 0);
    assert!(pending.is_empty());
}

#[test]
fn trigger_word_in_the_chosen_chat_is_answered() {
    let mut m = message("#\u{433}\u{440}\u{431}\u{43d} and more");
    m.chat_id = CHAT_ID;
    assert_eq!(handle_auto_cat(&m), Some("/start@y9catbot".to_string()));
    m.chat_id = CHAT_ID + 1;
    assert_eq!(handle_auto_cat(&m), None);
    let mut m = message("no #\u{433}\u{440}\u{431}\u{43d}");
    m.chat_id = CHAT_ID;
    assert_eq!(handle_auto_cat(&m), None);
    assert_eq!(CHAT_ID, 1633660171);
}

#[test]
fn topic_name_is_needed_for_recorded_messages_in_a_topic() {
    let mut m = message("x");
    m.reply_header = Some(ReplyHeader { forum_topic: true, reply_to_top_id: Some(2), reply_to_msg_id: Some(4) });
    assert_eq!(topic_to_name(&m), None);
    m.outgoing = true;
    assert_eq!(topic_to_name(&m), Some(2));
    m.peer = None;
    assert_eq!(topic_to_name(&m), None);
    let mut m = message("x");
    m.outgoing = true;
    assert_eq!(topic_to_name(&m), None);
}
