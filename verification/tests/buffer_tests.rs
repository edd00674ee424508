use chatlog::db::{
    clickhouse, deleted_buffer, edited_buffer, flushed_rows, incoming_buffer, BufferAction,
    BufferEvent, DeletedMessage, EditedMessage, IncomingMessage, InsertOutcome, WriteBuffer,
};
use std::cell::RefCell;

fn incoming(chat_id: i64, message_id: i64, text: &str) -> IncomingMessage {
    IncomingMessage {
        date_time: 1,
        message: text.to_string(),
        chat_title: "chat".to_string(),
        chat_id,
        username: vec![],
        first_name: String::new(),
        second_name: String::new(),
        user_id: 5,
        message_id,
        chat_usernames: vec![],
        reply_to: 0,
        client_id: 9,
    }
}

fn edited(chat_id: i64, message_id: i64, text: &str) -> EditedMessage {
    EditedMessage {
        date_time: 1,
        chat_id,
        message_id,
        original_message: "before".to_string(),
        message: text.to_string(),
        diff: String::new(),
        user_id: 5,
        client_id: 9,
    }
}

#[test]
fn new_buffer_is_empty_and_named() {
    let buffer: WriteBuffer<u32> = WriteBuffer::new("some_table");
    assert!(buffer.is_empty());
    assert_eq!(buffer.len(), 0);
    assert_eq!(buffer.table_name(), "some_table");
}

#[test]
fn named_buffers_have_their_tables() {
    assert_eq!(incoming_buffer().table_name(), "chats_log");
    assert_eq!(edited_buffer().table_name(), "edited_log");
    assert_eq!(deleted_buffer().table_name(), "deleted_log");
    assert!(incoming_buffer().is_empty());
}

#[test]
fn pushed_row_is_found_at_once() {
    let mut buffer = incoming_buffer();
    buffer.push(incoming(1, 10, "first"));
    buffer.push(incoming(1, 11, "second"));
    assert_eq!(buffer.find_message(1, 10), Some("first".to_string()));
    assert_eq!(buffer.find_message(1, 11), Some("second".to_string()));
    assert_eq!(buffer.find_message(2, 10), None);
    assert_eq!(buffer.find_message(1, 12), None);
}

#[test]
fn find_last_scans_newest_first() {
    let mut buffer = edited_buffer();
    buffer.push(edited(1, 10, "one"));
    buffer.push(edited(1, 10, "two"));
    buffer.push(edited(1, 11, "other"));
    assert_eq!(buffer.find_message(1, 10), Some("two".to_string()));
    let seen = RefCell::new(Vec::new());
    let found = buffer.find_last(|row: &EditedMessage| {
        seen.borrow_mut().push(row.message.clone());
        if row.message_id == 10 { Some(row.message.len()) } else { None }
    });
    assert_eq!(found, Some(3));
    assert_eq!(*seen.borrow(), vec!["other".to_string(), "two".to_string()]);
}

#[test]
fn find_last_on_empty_buffer_finds_nothing() {
    let buffer: WriteBuffer<u32> = WriteBuffer::new("t");
    assert_eq!(buffer.find_last(|n: &u32| Some(*n)), None);
}

#[test]
fn flush_hands_over_every_row_once_and_counts_them() {
    let mut buffer: WriteBuffer<u32> = WriteBuffer::new("numbers");
    buffer.push(1);
    buffer.push(2);
    buffer.push(3);
    let stored = RefCell::new(Vec::new());
    let n = buffer.flush(|table: &str, rows: Vec<u32>| {
        assert_eq!(table, "numbers");
        stored.borrow_mut().extend(rows);
        InsertOutcome::Committed
    });
    assert_eq!(n, 3);
    assert_eq!(*stored.borrow(), vec![1, 2, 3]);
    assert!(buffer.is_empty());
    assert_eq!(buffer.find_last(|n: &u32| Some(*n)), None);
}

#[test]
fn flush_of_empty_buffer_makes_no_call() {
    let mut buffer: WriteBuffer<u32> = WriteBuffer::new("numbers");
    let calls = RefCell::new(0);
    let n = buffer.flush(|_: &str, _: Vec<u32>| {
        *calls.borrow_mut() += 1;
        InsertOutcome::Committed
    });
    assert_eq!(n, 0);
    assert_eq!(*calls.borrow(), 0);
}

#[test]
fn failed_flush_reports_zero_and_drops_the_batch() {
    for outcome in [InsertOutcome::OpenFailed, InsertOutcome::WriteFailed, InsertOutcome::EndFailed] {
        let mut buffer: WriteBuffer<u32> = WriteBuffer::new("numbers");
        buffer.push(1);
        buffer.push(2);
        let n = buffer.flush(|_: &str, _: Vec<u32>| outcome);
        assert_eq!(n, 0);
        assert!(buffer.is_empty());
    }
}

#[test]
fn push_after_flush_is_kept_for_the_next_flush() {
    let mut buffer: WriteBuffer<u32> = WriteBuffer::new("numbers");
    buffer.push(1);
    assert_eq!(buffer.flush(|_: &str, _: Vec<u32>| InsertOutcome::Committed), 1);
    buffer.push(2);
    assert_eq!(buffer.len(), 1);
    let got = RefCell::new(Vec::new());
    assert_eq!(
        buffer.flush(|_: &str, rows: Vec<u32>| {
            *got.borrow_mut() = rows;
            InsertOutcome::Committed
        }),
        1
    );
    assert_eq!(*got.borrow(), vec![2]);
}

#[test]
fn take_batch_is_none_only_when_empty() {
    let mut buffer: WriteBuffer<u32> = WriteBuffer::new("numbers");
    assert_eq!(buffer.take_batch(), None);
    buffer.push(4);
    buffer.push(5);
    assert_eq!(buffer.take_batch(), Some(vec![4, 5]));
    assert_eq!(buffer.take_batch(), None);
}

#[test]
fn flushed_rows_counts_committed_batches_only() {
    assert_eq!(flushed_rows(7, InsertOutcome::Committed), 7);
    assert_eq!(flushed_rows(7, InsertOutcome::OpenFailed), 0);
    assert_eq!(flushed_rows(7, InsertOutcome::WriteFailed), 0);
    assert_eq!(flushed_rows(7, InsertOutcome::EndFailed), 0);
    assert_eq!(flushed_rows(0, InsertOutcome::Committed), 0);
}

#[test]
fn events_of_a_channel_fed_buffer() {
    let mut buffer: WriteBuffer<u32> = WriteBuffer::new("numbers");
    assert!(matches!(buffer.on_event(BufferEvent::Tick), BufferAction::Wait));
    assert!(matches!(buffer.on_event(BufferEvent::Row(1)), BufferAction::Wait));
    assert!(matches!(buffer.on_event(BufferEvent::Row(2)), BufferAction::Wait));
    match buffer.on_event(BufferEvent::Tick) {
        BufferAction::Flush(rows) => assert_eq!(rows, vec![1, 2]),
        _ => panic!("a tick with pending rows flushes"),
    }
    assert!(buffer.is_empty());
    assert!(matches!(buffer.on_event(BufferEvent::Row(3)), BufferAction::Wait));
    match buffer.on_event(BufferEvent::Closed) {
        BufferAction::FlushAndStop(rows) => assert_eq!(rows, vec![3]),
        _ => panic!("closing with pending rows flushes and stops"),
    }
    assert!(matches!(buffer.on_event(BufferEvent::Closed), BufferAction::Stop));
}

#[test]
fn store_configuration_keeps_the_settings() {
    let config = clickhouse("http://h:8123".to_string(), "u".to_string(), "p".to_string(), "d".to_string());
    assert_eq!(config.url, "http://h:8123");
    assert_eq!(config.user, "u");
    assert_eq!(config.password, "p");
    assert_eq!(config.database, "d");
}

#[test]
fn deleted_rows_compare_by_fields() {
    let a = DeletedMessage { date_time: 1, chat_id: 2, message_id: 3, client_id: 4 };
    assert_eq!(a.clone(), a);
}

#[test]
fn every_pushed_row_leaves_in_exactly_one_batch() {
    let mut buffer: WriteBuffer<u32> = WriteBuffer::new("numbers");
    let mut pushed = Vec::new();
    let mut drained = Vec::new();
    for round in 0u32..5 {
        for k in 0..round {
            let row = round * 10 + k;
            buffer.push(row);
            pushed.push(row);
        }
        if let Some(batch) = buffer.take_batch() {
            drained.extend(batch);
        }
    }
    assert!(buffer.is_empty());
    assert_eq!(drained, pushed);
}
