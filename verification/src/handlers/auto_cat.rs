//! The answer to a trigger word in one chosen chat.

use crate::handlers::Message;
use crate::text::{begins_with, starts_with};
use vstd::prelude::*;

verus! {

/// The chat in which the trigger is answered.
pub const CHAT_ID: i64 = 1633660171;

/// What a message has to begin with to be answered.
pub open spec fn trigger_prefix() -> Seq<char> {
    "#\u{433}\u{440}\u{431}\u{43d}"@
}

/// The command that answers the trigger.
pub open spec fn reply_command() -> Seq<char> {
    "/start@y9catbot"@
}

/// Whether a message is a trigger: it is in the chosen chat and begins with
/// the trigger word.
pub open spec fn is_trigger(message: Message) -> bool {
    message.chat_id == CHAT_ID && begins_with(message.text@, trigger_prefix())
}

/// The command to reply with to `message`, after which both the message and
/// the reply are to be deleted; none for a message that is no trigger.
pub fn handle_auto_cat(message: &Message) -> (reply: Option<String>)
    ensures
        reply is Some <==> is_trigger(*message),
        reply matches Some(command) ==> command@ == reply_command(),
{
    if message.chat_id != CHAT_ID || !starts_with(
        message.text.as_str(),
        "#\u{433}\u{440}\u{431}\u{43d}",
    ) {
        return None;
    }
    Some("/start@y9catbot".to_owned())
}

} // verus!
