//! What the transport reports of a message, and the handlers that turn such
//! reports into rows.

pub mod auto_cat;
pub mod deleted;
pub mod edited;
pub mod incoming;
pub mod outgoing;

use crate::text::{decimal, decimal_string, text_of};
use std::collections::HashMap;
use vstd::prelude::*;

verus! {

/// A user, group or channel, as far as the handlers read it.
#[derive(Clone, Debug, PartialEq, Eq)]
#[allow(inconsistent_fields)]
pub enum Peer {
    User {
        id: Option<i64>,
        username: Option<String>,
        first_name: Option<String>,
        last_name: Option<String>,
    },
    Group { id: Option<i64>, title: Option<String>, usernames: Vec<String> },
    Channel { id: Option<i64>, title: String, usernames: Vec<String> },
}

/// The part of a message that says what it replies to.
#[derive(Clone, Copy, Debug, PartialEq, Eq)]
pub struct ReplyHeader {
    pub forum_topic: bool,
    pub reply_to_top_id: Option<i32>,
    pub reply_to_msg_id: Option<i32>,
}

/// A new or edited message, as far as the handlers read it.
#[derive(Clone, Debug, PartialEq, Eq)]
pub struct Message {
    /// The message's id within its chat.
    pub id: i32,
    /// Whether this account sent the message.
    pub outgoing: bool,
    /// When the message was sent, in seconds since the epoch.
    pub date: i64,
    /// The message's text; empty for a message without text.
    pub text: String,
    /// The whole update as the transport delivered it, serialised.
    pub raw: String,
    /// The bare id of the chat that the message belongs to.
    pub chat_id: i64,
    /// The chat, where the transport knows it.
    pub peer: Option<Peer>,
    /// Who sent the message, where the transport knows it.
    pub sender: Option<Peer>,
    /// The id of the message that this one replies to.
    pub reply_to_message_id: Option<i32>,
    /// The reply header of an ordinary message that has one.
    pub reply_header: Option<ReplyHeader>,
}

/// A notice that messages were deleted.
#[derive(Clone, Debug, PartialEq, Eq)]
pub struct MessageDeletion {
    /// The channel that the messages were in; none outside channels.
    pub channel_id: Option<i64>,
    /// The ids of the deleted messages.
    pub messages: Vec<i32>,
}

impl Peer {
    /// The peer's bare id, where it has one.
    pub open spec fn id(self) -> Option<i64> {
        match self {
            Peer::User { id, .. } => id,
            Peer::Group { id, .. } => id,
            Peer::Channel { id, .. } => id,
        }
    }

    /// The peer's bare id, where it has one.
    pub fn bare_id(&self) -> (out: Option<i64>)
        ensures
            out == self.id(),
    {
        match self {
            Peer::User { id, .. } => *id,
            Peer::Group { id, .. } => *id,
            Peer::Channel { id, .. } => *id,
        }
    }
}

/// The forum topic that a reply header places a message in.
pub open spec fn topic_of(header: Option<ReplyHeader>) -> Option<i32> {
    match header {
        Some(h) => if h.forum_topic && h.reply_to_top_id is None {
            h.reply_to_msg_id
        } else {
            h.reply_to_top_id
        },
        None => None,
    }
}

/// The forum topic of `message`: the top message of the thread it replies
/// in, or, in a forum without one, the message it replies to.
pub fn get_topic_id(message: &Message) -> (out: Option<i32>)
    ensures
        out == topic_of(message.reply_header),
{
    match &message.reply_header {
        Some(header) => {
            if header.forum_topic {
                match header.reply_to_top_id {
                    Some(top) => Some(top),
                    None => header.reply_to_msg_id,
                }
            } else {
                header.reply_to_top_id
            }
        },
        None => None,
    }
}

/// A forum topic as the transport reports it.
#[derive(Clone, Debug, PartialEq, Eq)]
pub enum ForumTopic {
    Topic { id: i32, title: String },
    /// A topic that was deleted; only its id is left.
    Deleted,
}

/// The title of the first of `topics` with id `topic_id`.
pub open spec fn title_among(topics: Seq<ForumTopic>, topic_id: i32) -> Option<Seq<char>>
    decreases topics.len(),
{
    if topics.len() == 0 {
        None
    } else {
        match topics[0] {
            ForumTopic::Topic { id, title } if id == topic_id => Some(title@),
            _ => title_among(topics.drop_first(), topic_id),
        }
    }
}

/// The name of topic `topic_id`, given what the transport answered when it
/// was asked for the topic: the topic's title, or the topic's id where the
/// transport gave no answer or the answer does not hold the topic.
pub open spec fn topic_name_of(fetched: Option<Vec<ForumTopic>>, topic_id: i32) -> Seq<char> {
    match fetched {
        Some(topics) => match title_among(topics@, topic_id) {
            Some(title) => title,
            None => decimal(topic_id as int),
        },
        None => decimal(topic_id as int),
    }
}

/// The name of topic `topic_id`, from what the transport answered.
pub fn topic_name(fetched: &Option<Vec<ForumTopic>>, topic_id: i32) -> (name: String)
    ensures
        name@ == topic_name_of(*fetched, topic_id),
{
    if let Some(topics) = fetched {
        let mut i: usize = 0;
        assert(topics@.skip(0) == topics@);
        while i < topics.len()
            invariant
                i <= topics.len(),
                *fetched == Some(*topics),
                title_among(topics@, topic_id) == title_among(topics@.skip(i as int), topic_id),
            decreases topics.len() - i,
        {
            proof {
                assert(topics@.skip(i as int).drop_first() == topics@.skip(i + 1));
                assert(topics@.skip(i as int)[0] == topics@[i as int]);
            }
            if let ForumTopic::Topic { id, title } = &topics[i] {
                if *id == topic_id {
                    return title.clone();
                }
            }
            i = i + 1;
        }
    }
    decimal_string(topic_id as i64)
}

/// The key under which the name of a chat's topic is kept: the chat's id
/// and the topic's id side by side in one number.
pub open spec fn topic_key(chat_id: i64, topic_id: i32) -> i128 {
    (chat_id * 0x1_0000_0000 + (topic_id + 0x8000_0000)) as i128
}

/// The names of forum topics that were looked up so far. A name stays as
/// it was first stored until it is stored anew.
pub struct TopicNames {
    names: HashMap<i128, String>,
}

impl TopicNames {
    /// The name that is kept for topic `topic_id` of chat `chat_id`.
    pub closed spec fn name_of(&self, chat_id: i64, topic_id: i32) -> Option<Seq<char>> {
        if self.names@.contains_key(topic_key(chat_id, topic_id)) {
            Some(self.names@[topic_key(chat_id, topic_id)]@)
        } else {
            None
        }
    }

    /// No names yet.
    pub fn new() -> (cache: Self)
        ensures
            forall|chat_id: i64, topic_id: i32| cache.name_of(chat_id, topic_id) is None,
    {
        TopicNames { names: HashMap::new() }
    }

    fn key(chat_id: i64, topic_id: i32) -> (key: i128)
        ensures
            key == topic_key(chat_id, topic_id),
    {
        (chat_id as i128) * 0x1_0000_0000 + ((topic_id as i128) + 0x8000_0000)
    }

    /// The name that is kept for the topic, if any.
    pub fn get(&self, chat_id: i64, topic_id: i32) -> (name: Option<String>)
        ensures
            text_of(name) == self.name_of(chat_id, topic_id),
    {
        broadcast use vstd::std_specs::hash::group_hash_axioms;

        let key = Self::key(chat_id, topic_id);
        match self.names.get(&key) {
            Some(name) => Some(name.clone()),
            None => None,
        }
    }

    /// Keeps `name` for the topic, in place of any name kept for it before.
    pub fn insert(&mut self, chat_id: i64, topic_id: i32, name: String)
        ensures
            final(self).name_of(chat_id, topic_id) == Some(name@),
            forall|c: i64, t: i32|
                c != chat_id || t != topic_id ==> final(self).name_of(c, t) == old(self).name_of(
                    c,
                    t,
                ),
    {
        broadcast use vstd::std_specs::hash::group_hash_axioms;

        let key = Self::key(chat_id, topic_id);
        self.names.insert(key, name);
        assert forall|c: i64, t: i32| c != chat_id || t != topic_id implies self.name_of(c, t)
            == old(self).name_of(c, t) by {
            assert(topic_key(c, t) != topic_key(chat_id, topic_id));
        }
    }
}

/// The name of the forum topic `topic_id` of the chat of `message`, where
/// it was looked up before. Where this yields nothing, the transport is to
/// be asked for the topic.
pub fn get_topic_name(cache: &TopicNames, message: &Message, topic_id: i32) -> (name: Option<
    String,
>)
    ensures
        text_of(name) == cache.name_of(message.chat_id, topic_id),
{
    cache.get(message.chat_id, topic_id)
}

/// The name of the forum topic `topic_id` of the chat of `message`, from
/// what the transport answered; the name is kept for the next time.
pub fn fetch_topic_name(
    cache: &mut TopicNames,
    message: &Message,
    topic_id: i32,
    fetched: &Option<Vec<ForumTopic>>,
) -> (name: String)
    ensures
        name@ == topic_name_of(*fetched, topic_id),
        final(cache).name_of(message.chat_id, topic_id) == Some(name@),
        forall|c: i64, t: i32|
            c != message.chat_id || t != topic_id ==> final(cache).name_of(c, t) == old(
                cache,
            ).name_of(c, t),
{
    let name = topic_name(fetched, topic_id);
    cache.insert(message.chat_id, topic_id, name.clone());
    name
}

} // verus!
