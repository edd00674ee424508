//! The line of the log that quotes what a message replies to.

use crate::db::{last_content, IncomingMessage, WriteBuffer};
use crate::text::{
    chars_of, decimal, join, joined, lemma_texts_push, lines, lines_of, prefix, push_decimal,
    take_chars, text_of, texts,
};
use vstd::prelude::*;

verus! {

/// The text of a message that is replied to: the newest pending incoming
/// row about it; else what the store holds for it among the incoming
/// messages; else what the store holds for it among the sent ones.
pub open spec fn reply_text_of(
    pending: Seq<IncomingMessage>,
    stored_incoming: Option<Seq<char>>,
    stored_outgoing: Option<Seq<char>>,
    chat_id: int,
    message_id: int,
) -> Option<Seq<char>> {
    let found = last_content(pending, chat_id, message_id);
    if found is Some {
        found
    } else if stored_incoming is Some {
        stored_incoming
    } else {
        stored_outgoing
    }
}

/// The text of message `message_id` of chat `chat_id`, from the pending
/// incoming rows and from what the store answered for the message.
pub fn lookup_message_text(
    pending: &WriteBuffer<IncomingMessage>,
    stored_incoming: Option<String>,
    stored_outgoing: Option<String>,
    chat_id: i64,
    message_id: i32,
) -> (out: Option<String>)
    ensures
        text_of(out) == reply_text_of(
            pending@,
            text_of(stored_incoming),
            text_of(stored_outgoing),
            chat_id as int,
            message_id as int,
        ),
{
    match pending.find_message(chat_id, message_id as i64) {
        Some(content) => Some(content),
        None => match stored_incoming {
            Some(content) => Some(content),
            None => stored_outgoing,
        },
    }
}

/// The mark in front of the first line of a quote.
pub open spec fn first_mark() -> Seq<char> {
    "\x1b[90m> "@
}

/// The mark in front of every further line of a quote.
pub open spec fn next_mark() -> Seq<char> {
    "\x1b[90m  "@
}

/// The lines of a quote, each behind its mark.
pub open spec fn quoted(quote: Seq<Seq<char>>) -> Seq<Seq<char>> {
    Seq::new(
        quote.len(),
        |i: int|
            (if i == 0 {
                first_mark()
            } else {
                next_mark()
            }) + quote[i],
    )
}

/// The first `limit` characters of a text, and an ellipsis where that
/// leaves some out.
pub open spec fn preview_of(content: Seq<char>, limit: nat) -> Seq<char> {
    if content.len() > limit {
        prefix(content, limit) + seq!['\u{2026}']
    } else {
        prefix(content, limit)
    }
}

/// The line that quotes the message replied to: nothing for a message that
/// replies to none; the preview of the text, line by line, where the text
/// is known and not empty; else the id of the message in brackets.
pub open spec fn reply_line_of(
    reply_id: Option<i32>,
    content: Option<Seq<char>>,
    limit: nat,
) -> Seq<char> {
    match reply_id {
        None => Seq::empty(),
        Some(id) => if content is Some && content->0.len() > 0 {
            "\n"@ + joined(quoted(lines_of(preview_of(content->0, limit))), "\n"@) + "\x1b[0m"@
        } else {
            "\n\x1b[90m> ["@ + decimal(id as int) + "]\x1b[0m"@
        },
    }
}

/// The line of the log that quotes the message `reply_id`, whose text is
/// `content` where it is known.
pub fn format_reply_line(reply_id: Option<i32>, content: &Option<String>, limit: usize) -> (out:
    String)
    ensures
        out@ == reply_line_of(reply_id, text_of(*content), limit as nat),
{
    let id = match reply_id {
        Some(id) => id,
        None => {
            return String::new();
        },
    };
    if let Some(content) = content {
        if !content.as_str().is_empty() {
            let mut full = take_chars(content.as_str(), limit);
            if content.as_str().unicode_len() > limit {
                full.push('\u{2026}');
            }
            assert(full@ == preview_of(content@, limit as nat));
            let quote = lines(full.as_str());
            let mut marked: Vec<String> = Vec::new();
            let mut i: usize = 0;
            assert(texts(marked@) =~= quoted(texts(quote@)).take(0));
            while i < quote.len()
                invariant
                    i <= quote.len(),
                    texts(marked@) == quoted(texts(quote@)).take(i as int),
                decreases quote.len() - i,
            {
                let mut line = String::new();
                if i == 0 {
                    line.append("\x1b[90m> ");
                } else {
                    line.append("\x1b[90m  ");
                }
                line.append(quote[i].as_str());
                proof {
                    lemma_texts_push(marked@, line);
                    assert(line@ =~= quoted(texts(quote@))[i as int]);
                    assert(quoted(texts(quote@)).take(i + 1) =~= quoted(texts(quote@)).take(
                        i as int,
                    ).push(line@));
                }
                marked.push(line);
                i = i + 1;
            }
            assert(quoted(texts(quote@)).take(quote.len() as int) == quoted(texts(quote@)));
            let formatted = join(&marked, "\n");
            let mut out = String::new();
            out.append("\n");
            out.append(formatted.as_str());
            out.append("\x1b[0m");
            assert(out@ =~= "\n"@ + formatted@ + "\x1b[0m"@);
            return out;
        }
    }
    let mut out = String::new();
    out.append("\n\x1b[90m> [");
    push_decimal(&mut out, id as i64);
    out.append("]\x1b[0m");
    assert(out@ =~= "\n\x1b[90m> ["@ + decimal(id as int) + "]\x1b[0m"@);
    out
}

} // verus!
