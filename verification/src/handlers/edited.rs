//! Edited messages: the line diff against the last known content, and the
//! row that records the edit.

use crate::db::{EditedMessage, WriteBuffer};
use crate::handlers::{Message, Peer};
use crate::text::{join, joined, lemma_texts_push, lines, lines_of, text_of, texts};
use vstd::prelude::*;

verus! {

/// `line` behind the mark of its kind: a space, `-` or `+`.
pub open spec fn marked(mark: char, line: Seq<char>) -> Seq<char> {
    seq![mark] + line
}

/// The rows of the diff for line `i` of both texts: the line as context
/// where both texts have it and agree, the old line as removed and the new
/// one as added where they differ, and one of the two where only one text
/// reaches that far.
pub open spec fn diff_rows_at(a: Seq<Seq<char>>, b: Seq<Seq<char>>, i: int) -> Seq<Seq<char>> {
    if 0 <= i < a.len() && i < b.len() {
        if a[i] == b[i] {
            seq![marked(' ', a[i])]
        } else {
            seq![marked('-', a[i]), marked('+', b[i])]
        }
    } else if 0 <= i < a.len() {
        seq![marked('-', a[i])]
    } else if 0 <= i < b.len() {
        seq![marked('+', b[i])]
    } else {
        Seq::empty()
    }
}

/// The rows of the diff for the first `n` lines.
pub open spec fn diff_rows(a: Seq<Seq<char>>, b: Seq<Seq<char>>, n: nat) -> Seq<Seq<char>>
    decreases n,
{
    if n == 0 {
        Seq::empty()
    } else {
        diff_rows(a, b, (n - 1) as nat) + diff_rows_at(a, b, n - 1)
    }
}

/// The longer of two lengths.
pub open spec fn longer(a: nat, b: nat) -> nat {
    if a >= b {
        a
    } else {
        b
    }
}

/// The line diff of two texts: empty where they have the same lines, else
/// the two header lines and the rows of every line, one per line of text.
pub open spec fn unified_diff_of(original: Seq<char>, modified: Seq<char>) -> Seq<char> {
    let a = lines_of(original);
    let b = lines_of(modified);
    if a == b {
        Seq::empty()
    } else {
        joined(
            seq!["--- original"@, "+++ modified"@] + diff_rows(a, b, longer(a.len(), b.len())),
            "\n"@,
        )
    }
}

fn marked_line(mark: char, line: &String) -> (out: String)
    ensures
        out@ == marked(mark, line@),
{
    let mut out = String::new();
    out.push(mark);
    out.append(line.as_str());
    out
}

/// The line diff of `original` and `modified`, comparing them line by line
/// in place.
pub fn unified_diff(original: &str, modified: &str) -> (out: String)
    ensures
        out@ == unified_diff_of(original@, modified@),
{
    let a = lines(original);
    let b = lines(modified);
    let ghost la = texts(a@);
    let ghost lb = texts(b@);
    let ghost header = seq!["--- original"@, "+++ modified"@];
    let mut result: Vec<String> = Vec::new();
    result.push("--- original".to_owned());
    result.push("+++ modified".to_owned());
    assert(texts(result@) =~= header);
    let max_len = if a.len() >= b.len() {
        a.len()
    } else {
        b.len()
    };
    let mut has_changes = false;
    let mut i: usize = 0;
    assert(header + diff_rows(la, lb, 0) == header);
    while i < max_len
        invariant
            i <= max_len,
            max_len == longer(a@.len(), b@.len()),
            la == texts(a@),
            lb == texts(b@),
            texts(result@) == header + diff_rows(la, lb, i as nat),
            !has_changes <==> (forall|j: int|
                0 <= j < i ==> j < la.len() && j < lb.len() && la[j] == lb[j]),
        decreases max_len - i,
    {
        let ghost before = result@;
        if i < a.len() && i < b.len() {
            if a[i] == b[i] {
                let row = marked_line(' ', &a[i]);
                proof {
                    lemma_texts_push(result@, row);
                }
                result.push(row);
            } else {
                let removed = marked_line('-', &a[i]);
                let added = marked_line('+', &b[i]);
                proof {
                    lemma_texts_push(result@, removed);
                    lemma_texts_push(result@.push(removed), added);
                }
                result.push(removed);
                result.push(added);
                has_changes = true;
            }
        } else if i < a.len() {
            let removed = marked_line('-', &a[i]);
            proof {
                lemma_texts_push(result@, removed);
            }
            result.push(removed);
            has_changes = true;
        } else {
            let added = marked_line('+', &b[i]);
            proof {
                lemma_texts_push(result@, added);
            }
            result.push(added);
            has_changes = true;
        }
        proof {
            assert(texts(result@) =~= texts(before) + diff_rows_at(la, lb, i as int));
            assert(header + diff_rows(la, lb, i as nat) + diff_rows_at(la, lb, i as int) =~= header
                + diff_rows(la, lb, (i + 1) as nat));
        }
        i = i + 1;
    }
    proof {
        if !has_changes {
            assert(la.len() == lb.len());
            assert(la =~= lb);
        } else {
            let j = choose|j: int| 0 <= j < i && !(j < la.len() && j < lb.len() && la[j] == lb[j]);
            assert(la != lb);
        }
    }
    if has_changes {
        join(&result, "\n")
    } else {
        String::new()
    }
}

/// The same text always diffs to nothing.
pub proof fn lemma_diff_of_same_text_is_empty(content: Seq<char>)
    ensures
        unified_diff_of(content, content) == Seq::<char>::empty(),
{
}

/// The diff is empty exactly where the two texts have the same lines.
pub proof fn lemma_diff_is_empty_iff_same_lines(original: Seq<char>, modified: Seq<char>)
    ensures
        unified_diff_of(original, modified).len() == 0 <==> lines_of(original) == lines_of(
            modified,
        ),
{
    let a = lines_of(original);
    let b = lines_of(modified);
    if a != b {
        let rows = seq!["--- original"@, "+++ modified"@] + diff_rows(
            a,
            b,
            longer(a.len(), b.len()),
        );
        reveal_strlit("--- original");
        reveal_strlit("\n");
        lemma_joined_starts_with_first(rows, "\n"@);
    }
}

/// A joined text starts with its first part.
pub proof fn lemma_joined_starts_with_first(parts: Seq<Seq<char>>, sep: Seq<char>)
    requires
        parts.len() > 0,
    ensures
        joined(parts, sep).len() >= parts[0].len(),
    decreases parts.len(),
{
    if parts.len() > 1 {
        lemma_joined_starts_with_first(parts.drop_last(), sep);
    }
}

/// The bare id of the sender of a message, or zero where it is not known.
pub open spec fn sender_id(sender: Option<Peer>) -> i64 {
    match sender {
        Some(peer) => match peer.id() {
            Some(id) => id,
            None => 0,
        },
        None => 0,
    }
}

/// Whether an edit is recorded: the message has text, its earlier content
/// is known and not empty, and the text differs from it.
pub open spec fn edit_is_recorded(text: Seq<char>, original: Option<Seq<char>>) -> bool {
    &&& text.len() > 0
    &&& original matches Some(before) && before.len() > 0 && before != text
}

/// An edit that leaves the text as it was known, or whose earlier content
/// is unknown or empty, is not recorded.
pub proof fn lemma_edit_without_change_is_not_recorded(text: Seq<char>)
    ensures
        !edit_is_recorded(text, Some(text)),
        !edit_is_recorded(text, Some(Seq::empty())),
        !edit_is_recorded(text, None),
{
}

/// Whether `row` records the edit of `message` from the content `original`,
/// seen at `now` seconds since the epoch by the account `client_id`.
pub open spec fn is_edit_row(
    row: EditedMessage,
    message: Message,
    original: Seq<char>,
    now: u64,
    client_id: u64,
) -> bool {
    &&& row.date_time == now as u32
    &&& row.chat_id == message.chat_id
    &&& row.message_id == message.id as i64
    &&& row.original_message@ == original
    &&& row.message@ == message.text@
    &&& row.diff@ == unified_diff_of(original, message.text@)
    &&& row.user_id == sender_id(message.sender)
    &&& row.client_id == client_id
}

/// Whether an edited message needs its earlier content looked up at all:
/// an edit that leaves no text is ignored.
pub fn edit_needs_lookup(message: &Message) -> (needed: bool)
    ensures
        needed == (message.text@.len() > 0),
{
    !message.text.as_str().is_empty()
}

/// The row for the edit of `message`, whose last known content is
/// `original`. There is none where the message has no text, where the
/// earlier content is unknown or empty, or where the text has not changed.
pub fn edited_row(message: &Message, original: Option<String>, now: u64, client_id: u64) -> (out:
    Option<EditedMessage>)
    ensures
        out is Some <==> edit_is_recorded(message.text@, text_of(original)),
        out matches Some(row) ==> is_edit_row(row, *message, original->0@, now, client_id),
{
    if message.text.as_str().is_empty() {
        return None;
    }
    let before = match original {
        Some(before) => before,
        None => {
            return None;
        },
    };
    if before.as_str().is_empty() || before == message.text {
        return None;
    }
    let diff = unified_diff(before.as_str(), message.text.as_str());
    let user_id: i64 = match &message.sender {
        Some(peer) => match peer.bare_id() {
            Some(id) => id,
            None => 0,
        },
        None => 0,
    };
    Some(
        EditedMessage {
            date_time: #[verifier::truncate] (now as u32),
            chat_id: message.chat_id,
            message_id: message.id as i64,
            original_message: before,
            message: message.text.clone(),
            diff,
            user_id,
            client_id,
        },
    )
}

/// Records the edit of `message` among the pending edits, unless the edit
/// changes nothing that is known. Says whether a row was written.
pub fn save_edited(
    message: &Message,
    original: Option<String>,
    now: u64,
    client_id: u64,
    edits: &mut WriteBuffer<EditedMessage>,
) -> (written: bool)
    ensures
        written == edit_is_recorded(message.text@, text_of(original)),
        final(edits).table() == old(edits).table(),
        !written ==> final(edits)@ == old(edits)@,
        written ==> final(edits)@.len() == old(edits)@.len() + 1,
        written ==> final(edits)@.drop_last() == old(edits)@,
        written ==> is_edit_row(final(edits)@.last(), *message, original->0@, now, client_id),
{
    match edited_row(message, original, now, client_id) {
        Some(row) => {
            edits.push(row);
            assert(edits@.drop_last() == old(edits)@);
            true
        },
        None => false,
    }
}

} // verus!
