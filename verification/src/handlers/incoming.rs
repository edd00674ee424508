//! Messages that arrive in groups and channels.

use crate::db::{IncomingMessage, WriteBuffer};
use crate::handlers::{Message, Peer};
use crate::text::{clone_strings, or_empty, texts, unwrap_or_empty};
use vstd::prelude::*;

verus! {

/// Whether a message is recorded as incoming: another account sent it, the
/// chat is known and is no private chat, and the sender is known.
pub open spec fn is_recorded_incoming(message: Message) -> bool {
    &&& !message.outgoing
    &&& message.peer matches Some(peer) && !(peer is User)
    &&& message.sender is Some
}

/// The content that is recorded for a message: its text, or the serialised
/// update where it has no text.
pub open spec fn content_of(message: Message) -> Seq<char> {
    if message.text@.len() == 0 {
        message.raw@
    } else {
        message.text@
    }
}

/// The id of the message that `message` replies to, zero where it replies
/// to none.
pub open spec fn reply_target(message: Message) -> u64 {
    match message.reply_to_message_id {
        Some(id) => id as u64,
        None => 0,
    }
}

/// Whether `row` records `message` as seen by the account `client_id`. Of
/// the sender it records the name and id only where the sender is a user;
/// of the chat the title and the names.
pub open spec fn is_incoming_row(row: IncomingMessage, message: Message, client_id: u64) -> bool {
    &&& row.date_time == message.date as u32
    &&& row.message@ == content_of(message)
    &&& row.chat_id == message.chat_id
    &&& row.message_id == message.id as i64
    &&& row.reply_to == reply_target(message)
    &&& row.client_id == client_id
    &&& match message.sender {
        Some(Peer::User { id, username, first_name, last_name }) => {
            &&& texts(row.username@) == seq![or_empty(username)]
            &&& row.first_name@ == or_empty(first_name)
            &&& row.second_name@ == or_empty(last_name)
            &&& row.user_id == (match id {
                Some(id) => id as u64,
                None => 0,
            })
        },
        _ => {
            &&& texts(row.username@) == Seq::<Seq<char>>::empty()
            &&& row.first_name@ == Seq::<char>::empty()
            &&& row.second_name@ == Seq::<char>::empty()
            &&& row.user_id == 0
        },
    }
    &&& match message.peer {
        Some(Peer::Group { title, usernames, .. }) => {
            &&& row.chat_title@ == or_empty(title)
            &&& texts(row.chat_usernames@) == texts(usernames@)
        },
        Some(Peer::Channel { title, usernames, .. }) => {
            &&& row.chat_title@ == title@
            &&& texts(row.chat_usernames@) == texts(usernames@)
        },
        _ => {
            &&& row.chat_title@ == Seq::<char>::empty()
            &&& texts(row.chat_usernames@) == Seq::<Seq<char>>::empty()
        },
    }
}

/// The id of the message that `message` replies to, or zero.
pub fn reply_to_of(message: &Message) -> (out: u64)
    ensures
        out == reply_target(*message),
{
    match message.reply_to_message_id {
        Some(id) => #[verifier::truncate] (id as u64),
        None => 0,
    }
}

/// The row for an incoming message; none for a message that is not
/// recorded.
pub fn incoming_row(message: &Message, client_id: u64) -> (out: Option<IncomingMessage>)
    ensures
        out is Some <==> is_recorded_incoming(*message),
        out matches Some(row) ==> is_incoming_row(row, *message, client_id),
{
    if message.outgoing {
        return None;
    }
    let peer = match &message.peer {
        Some(peer) => peer,
        None => {
            return None;
        },
    };
    if let Peer::User { .. } = peer {
        return None;
    }
    let sender = match &message.sender {
        Some(sender) => sender,
        None => {
            return None;
        },
    };
    let mut username: Vec<String> = Vec::new();
    let mut first_name = String::new();
    let mut second_name = String::new();
    let mut user_id: u64 = 0;
    assert(texts(username@) =~= Seq::<Seq<char>>::empty());
    if let Peer::User { id, username: name, first_name: first, last_name: last } = sender {
        username.push(unwrap_or_empty(name));
        assert(texts(username@) =~= seq![or_empty(*name)]);
        first_name = unwrap_or_empty(first);
        second_name = unwrap_or_empty(last);
        user_id =
        match id {
            Some(id) => #[verifier::truncate] (*id as u64),
            None => 0,
        };
    }
    let mut chat_title = String::new();
    let mut chat_usernames: Vec<String> = Vec::new();
    assert(texts(chat_usernames@) =~= Seq::<Seq<char>>::empty());
    match peer {
        Peer::Group { title, usernames, .. } => {
            chat_title = unwrap_or_empty(title);
            chat_usernames = clone_strings(usernames);
        },
        Peer::Channel { title, usernames, .. } => {
            chat_title = title.clone();
            chat_usernames = clone_strings(usernames);
        },
        Peer::User { .. } => {},
    }
    let content = if message.text.as_str().is_empty() {
        message.raw.clone()
    } else {
        message.text.clone()
    };
    Some(
        IncomingMessage {
            date_time: #[verifier::truncate] (message.date as u32),
            message: content,
            chat_title,
            chat_id: message.chat_id,
            username,
            first_name,
            second_name,
            user_id,
            message_id: message.id as i64,
            chat_usernames,
            reply_to: reply_to_of(message),
            client_id,
        },
    )
}

/// Records an incoming message among the pending rows. Says whether a row
/// was written.
pub fn save_incoming(
    message: &Message,
    client_id: u64,
    pending: &mut WriteBuffer<IncomingMessage>,
) -> (written: bool)
    ensures
        written == is_recorded_incoming(*message),
        final(pending).table() == old(pending).table(),
        !written ==> final(pending)@ == old(pending)@,
        written ==> final(pending)@.len() == old(pending)@.len() + 1,
        written ==> final(pending)@.drop_last() == old(pending)@,
        written ==> is_incoming_row(final(pending)@.last(), *message, client_id),
{
    match incoming_row(message, client_id) {
        Some(row) => {
            pending.push(row);
            assert(pending@.drop_last() == old(pending)@);
            true
        },
        None => false,
    }
}

} // verus!
