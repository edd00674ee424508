//! The last known content of a message, looked up first among the rows
//! that are still pending and then in what the durable store answered.

use crate::db::{last_content, EditedMessage, IncomingMessage, WriteBuffer};
use crate::text::{decimal, decimal_string, text_of};
use vstd::prelude::*;

verus! {

/// What the durable store holds for one message: the content of its newest
/// entry in the edit history, and of its newest entry among the incoming
/// messages.
#[derive(Clone, Debug, PartialEq, Eq)]
pub struct StoreAnswer {
    pub edited: Option<String>,
    pub incoming: Option<String>,
}

/// Whether a lookup found content, and the content is not empty.
pub open spec fn filled(found: Option<Seq<char>>) -> bool {
    found matches Some(content) && content.len() > 0
}

/// The store's answer for a message: its newest edit where the edit history
/// has one, else the message as it came in.
pub open spec fn stored_content(
    edited: Option<Seq<char>>,
    incoming: Option<Seq<char>>,
) -> Option<Seq<char>> {
    if edited is Some {
        edited
    } else {
        incoming
    }
}

/// The content that a lookup of message `message_id` of chat `chat_id`
/// resolves to: the newest pending edit if it has content; else the store's
/// answer if it has content; else the newest pending incoming row.
pub open spec fn resolved(
    pending_edits: Seq<EditedMessage>,
    stored_edit: Option<Seq<char>>,
    stored_incoming: Option<Seq<char>>,
    pending_incoming: Seq<IncomingMessage>,
    chat_id: int,
    message_id: int,
) -> Option<Seq<char>> {
    let edit = last_content(pending_edits, chat_id, message_id);
    let stored = stored_content(stored_edit, stored_incoming);
    if filled(edit) {
        edit
    } else if filled(stored) {
        stored
    } else {
        last_content(pending_incoming, chat_id, message_id)
    }
}

impl StoreAnswer {
    /// The store's answer: the newest edit before the message as it came in.
    pub fn content(self) -> (out: Option<String>)
        ensures
            text_of(out) == stored_content(text_of(self.edited), text_of(self.incoming)),
    {
        match self.edited {
            Some(edit) => Some(edit),
            None => self.incoming,
        }
    }
}

/// The first tier of a lookup: the newest pending edit of the message, where
/// there is one and it has content. Where this yields nothing, the store is
/// to be asked.
pub fn resolve_pending(
    edits: &WriteBuffer<EditedMessage>,
    chat_id: i64,
    message_id: i64,
) -> (out: Option<String>)
    ensures
        ({
            let edit = last_content(edits@, chat_id as int, message_id as int);
            text_of(out) == (if filled(edit) {
                edit
            } else {
                None
            })
        }),
{
    match edits.find_message(chat_id, message_id) {
        Some(content) => if content.as_str().is_empty() {
            None
        } else {
            Some(content)
        },
        None => None,
    }
}

/// The later tiers of a lookup, for when no pending edit answered: the
/// store's answer if it has content, else the newest pending incoming row.
pub fn resolve_stored(
    store: StoreAnswer,
    incoming: &WriteBuffer<IncomingMessage>,
    chat_id: i64,
    message_id: i64,
) -> (out: Option<String>)
    ensures
        ({
            let stored = stored_content(text_of(store.edited), text_of(store.incoming));
            text_of(out) == (if filled(stored) {
                stored
            } else {
                last_content(incoming@, chat_id as int, message_id as int)
            })
        }),
{
    match store.content() {
        Some(content) => if content.as_str().is_empty() {
            incoming.find_message(chat_id, message_id)
        } else {
            Some(content)
        },
        None => incoming.find_message(chat_id, message_id),
    }
}

/// The last known content of message `message_id` of chat `chat_id`, or
/// nothing where neither the pending rows nor the store know the message.
pub fn resolve(
    edits: &WriteBuffer<EditedMessage>,
    store: StoreAnswer,
    incoming: &WriteBuffer<IncomingMessage>,
    chat_id: i64,
    message_id: i64,
) -> (out: Option<String>)
    ensures
        text_of(out) == resolved(
            edits@,
            text_of(store.edited),
            text_of(store.incoming),
            incoming@,
            chat_id as int,
            message_id as int,
        ),
{
    match resolve_pending(edits, chat_id, message_id) {
        Some(content) => Some(content),
        None => resolve_stored(store, incoming, chat_id, message_id),
    }
}

/// The content that is shown for a deleted message: what the store holds
/// for it, or the message's id where the store does not know it.
pub open spec fn deleted_content(
    stored_edit: Option<Seq<char>>,
    stored_incoming: Option<Seq<char>>,
    message_id: int,
) -> Seq<char> {
    match stored_content(stored_edit, stored_incoming) {
        Some(content) => content,
        None => decimal(message_id),
    }
}

/// The content to show for the deleted message `message_id`.
pub fn resolve_deleted(store: StoreAnswer, message_id: i32) -> (out: String)
    ensures
        out@ == deleted_content(text_of(store.edited), text_of(store.incoming), message_id as int),
{
    match store.content() {
        Some(content) => content,
        None => decimal_string(message_id as i64),
    }
}

/// A row that is pending, and that no newer pending row about the same
/// message follows, is what a lookup of its message finds.
pub proof fn lemma_pending_row_is_found<T: crate::db::MessageRow>(rows: Seq<T>, i: int)
    requires
        0 <= i < rows.len(),
        forall|j: int|
            i < j < rows.len() ==> !(#[trigger] rows[j].chat() == rows[i].chat()
                && rows[j].message() == rows[i].message()),
    ensures
        last_content(rows, rows[i].chat(), rows[i].message()) == Some(rows[i].content()),
    decreases rows.len(),
{
    if i < rows.len() - 1 {
        let before = rows.drop_last();
        assert(!(rows[rows.len() - 1].chat() == rows[i].chat() && rows[rows.len() - 1].message()
            == rows[i].message()));
        assert(before[i] == rows[i]);
        assert forall|j: int| i < j < before.len() implies !(#[trigger] before[j].chat()
            == before[i].chat() && before[j].message() == before[i].message()) by {
            assert(before[j] == rows[j]);
        }
        lemma_pending_row_is_found(before, i);
    }
}

/// A row is found by a lookup of its message as soon as it is pushed.
pub proof fn lemma_pushed_row_is_found<T: crate::db::MessageRow>(rows: Seq<T>, row: T)
    ensures
        last_content(rows.push(row), row.chat(), row.message()) == Some(row.content()),
{
    lemma_pending_row_is_found(rows.push(row), rows.len() as int);
}

/// Once a buffer is drained a lookup finds none of its rows there: with no
/// pending edits, the store answers, and after it the pending incoming rows.
pub proof fn lemma_drained_rows_fall_through(
    stored_edit: Option<Seq<char>>,
    stored_incoming: Option<Seq<char>>,
    pending_incoming: Seq<IncomingMessage>,
    chat_id: int,
    message_id: int,
)
    ensures
        last_content(Seq::<EditedMessage>::empty(), chat_id, message_id) is None,
        last_content(Seq::<IncomingMessage>::empty(), chat_id, message_id) is None,
        filled(stored_content(stored_edit, stored_incoming)) ==> resolved(
            Seq::empty(),
            stored_edit,
            stored_incoming,
            pending_incoming,
            chat_id,
            message_id,
        ) == stored_content(stored_edit, stored_incoming),
        !filled(stored_content(stored_edit, stored_incoming)) ==> resolved(
            Seq::empty(),
            stored_edit,
            stored_incoming,
            pending_incoming,
            chat_id,
            message_id,
        ) == last_content(pending_incoming, chat_id, message_id),
{
}

/// A pending edit with content is preferred to everything that the store
/// and the pending incoming rows hold for the same message.
pub proof fn lemma_pending_edit_wins(
    pending_edits: Seq<EditedMessage>,
    stored_edit: Option<Seq<char>>,
    stored_incoming: Option<Seq<char>>,
    pending_incoming: Seq<IncomingMessage>,
    chat_id: int,
    message_id: int,
)
    requires
        filled(last_content(pending_edits, chat_id, message_id)),
    ensures
        resolved(
            pending_edits,
            stored_edit,
            stored_incoming,
            pending_incoming,
            chat_id,
            message_id,
        ) == last_content(pending_edits, chat_id, message_id),
{
}

/// In the store, the edit history is preferred to the incoming messages.
pub proof fn lemma_stored_edit_wins(
    pending_edits: Seq<EditedMessage>,
    stored_edit: Seq<char>,
    stored_incoming: Option<Seq<char>>,
    pending_incoming: Seq<IncomingMessage>,
    chat_id: int,
    message_id: int,
)
    requires
        !filled(last_content(pending_edits, chat_id, message_id)),
        stored_edit.len() > 0,
    ensures
        resolved(
            pending_edits,
            Some(stored_edit),
            stored_incoming,
            pending_incoming,
            chat_id,
            message_id,
        ) == Some(stored_edit),
{
}

} // verus!
