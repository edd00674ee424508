//! Messages that this account sends.

use crate::db::OutgoingMessage;
use crate::handlers::incoming::{reply_target, reply_to_of};
use crate::handlers::{get_topic_id, topic_of, Message, Peer};
use crate::text::{clone_strings, decimal, decimal_string, or_empty, texts, unwrap_or_empty};
use vstd::prelude::*;

verus! {

/// Whether a message is recorded as outgoing: this account sent it, and
/// the chat is known.
pub open spec fn is_recorded_outgoing(message: Message) -> bool {
    message.outgoing && message.peer is Some
}

/// The name that a chat is recorded under: a user's name, a group's or a
/// channel's title.
pub open spec fn peer_title(peer: Peer) -> Seq<char> {
    match peer {
        Peer::User { username, .. } => or_empty(username),
        Peer::Group { title, .. } => or_empty(title),
        Peer::Channel { title, .. } => title@,
    }
}

/// The names that a chat goes by: a user's one name, where it has one; a
/// group's or a channel's names.
pub open spec fn peer_usernames(peer: Peer) -> Seq<Seq<char>> {
    match peer {
        Peer::User { username, .. } => match username {
            Some(name) => seq![name@],
            None => Seq::empty(),
        },
        Peer::Group { usernames, .. } => texts(usernames@),
        Peer::Channel { usernames, .. } => texts(usernames@),
    }
}

/// Whether `row` records the sent `message` as seen by the account
/// `client_id`, with `topic_name` as the name of its forum topic. A chat
/// without a title is recorded under its id; a message outside any topic
/// has topic zero and no topic name.
pub open spec fn is_outgoing_row(
    row: OutgoingMessage,
    message: Message,
    topic_name: Seq<char>,
    client_id: u64,
) -> bool {
    let peer = message.peer->0;
    &&& row.date_time == message.date as u32
    &&& row.message@ == message.text@
    &&& row.title@ == (if peer_title(peer).len() == 0 {
        decimal(message.chat_id as int)
    } else {
        peer_title(peer)
    })
    &&& row.id == message.chat_id
    &&& texts(row.admins2@) == Seq::<Seq<char>>::empty()
    &&& texts(row.usernames@) == peer_usernames(peer)
    &&& row.message_id == message.id as u64
    &&& row.reply_to == reply_target(message)
    &&& row.raw@ == message.raw@
    &&& row.client_id == client_id
    &&& row.topic_id == (match topic_of(message.reply_header) {
        Some(id) => id,
        None => 0,
    })
    &&& row.topic_name@ == (if topic_of(message.reply_header) is Some {
        topic_name
    } else {
        Seq::empty()
    })
}

/// The forum topic whose name the row of `message` needs; none for a
/// message that is not recorded or that is in no topic.
pub fn topic_to_name(message: &Message) -> (topic: Option<i32>)
    ensures
        topic == (if is_recorded_outgoing(*message) {
            topic_of(message.reply_header)
        } else {
            None
        }),
{
    if message.outgoing && message.peer.is_some() {
        get_topic_id(message)
    } else {
        None
    }
}

/// The row for a message that this account sent, with `topic_name` as the
/// name of the message's forum topic; none for a message that is not
/// recorded.
pub fn save_outgoing(message: &Message, topic_name: &str, client_id: u64) -> (out: Option<
    OutgoingMessage,
>)
    ensures
        out is Some <==> is_recorded_outgoing(*message),
        out matches Some(row) ==> is_outgoing_row(row, *message, topic_name@, client_id),
{
    if !message.outgoing {
        return None;
    }
    let peer = match &message.peer {
        Some(peer) => peer,
        None => {
            return None;
        },
    };
    let mut usernames: Vec<String> = Vec::new();
    assert(texts(usernames@) =~= Seq::<Seq<char>>::empty());
    let title = match peer {
        Peer::User { username, .. } => {
            if let Some(name) = username {
                usernames.push(name.clone());
                assert(texts(usernames@) =~= seq![name@]);
            }
            unwrap_or_empty(username)
        },
        Peer::Group { title, usernames: names, .. } => {
            usernames = clone_strings(names);
            unwrap_or_empty(title)
        },
        Peer::Channel { title, usernames: names, .. } => {
            usernames = clone_strings(names);
            title.clone()
        },
    };
    let title = if title.as_str().is_empty() {
        decimal_string(message.chat_id)
    } else {
        title
    };
    let admins: Vec<String> = Vec::new();
    assert(texts(admins@) =~= Seq::<Seq<char>>::empty());
    let topic_id = get_topic_id(message);
    let (topic, name) = match topic_id {
        Some(id) => (id, topic_name.to_owned()),
        None => (0, String::new()),
    };
    Some(
        OutgoingMessage {
            date_time: #[verifier::truncate] (message.date as u32),
            message: message.text.clone(),
            title,
            id: message.chat_id,
            admins2: admins,
            usernames,
            message_id: #[verifier::truncate] (message.id as u64),
            reply_to: reply_to_of(message),
            raw: message.raw.clone(),
            client_id,
            topic_id: topic,
            topic_name: name,
        },
    )
}

} // verus!
