//! Deleted messages.

use crate::db::{DeletedMessage, WriteBuffer};
use crate::handlers::MessageDeletion;
use vstd::prelude::*;

verus! {

/// The row for the deletion of message `message_id` of the channel
/// `channel_id`, seen at `now` seconds since the epoch by the account
/// `client_id`.
pub open spec fn deleted_row(
    channel_id: i64,
    message_id: i32,
    now: u64,
    client_id: u64,
) -> DeletedMessage {
    DeletedMessage {
        date_time: now as u32,
        chat_id: channel_id,
        message_id: message_id as i64,
        client_id,
    }
}

/// The rows for a notice of deletion: one for each message, in the
/// notice's order; none where the notice names no channel.
pub open spec fn deleted_rows(deletion: MessageDeletion, now: u64, client_id: u64) -> Seq<
    DeletedMessage,
> {
    match deletion.channel_id {
        Some(channel_id) => Seq::new(
            deletion.messages@.len(),
            |i: int| deleted_row(channel_id, deletion.messages@[i], now, client_id),
        ),
        None => Seq::empty(),
    }
}

/// Records the deletions of a notice among the pending rows and returns
/// their number.
pub fn save_deleted(
    deletion: &MessageDeletion,
    now: u64,
    client_id: u64,
    pending: &mut WriteBuffer<DeletedMessage>,
) -> (written: usize)
    ensures
        final(pending)@ == old(pending)@ + deleted_rows(*deletion, now, client_id),
        final(pending).table() == old(pending).table(),
        written == deleted_rows(*deletion, now, client_id).len(),
{
    let channel_id = match deletion.channel_id {
        Some(id) => id,
        None => {
            assert(old(pending)@ + Seq::<DeletedMessage>::empty() =~= old(pending)@);
            return 0;
        },
    };
    let ghost rows = deleted_rows(*deletion, now, client_id);
    let mut i: usize = 0;
    assert(old(pending)@ + rows.take(0) =~= old(pending)@);
    while i < deletion.messages.len()
        invariant
            i <= deletion.messages.len(),
            deletion.channel_id == Some(channel_id),
            rows == deleted_rows(*deletion, now, client_id),
            pending@ == old(pending)@ + rows.take(i as int),
            pending.table() == old(pending).table(),
        decreases deletion.messages.len() - i,
    {
        let row = DeletedMessage {
            date_time: #[verifier::truncate] (now as u32),
            chat_id: channel_id,
            message_id: deletion.messages[i] as i64,
            client_id,
        };
        assert(row == rows[i as int]);
        pending.push(row);
        assert(rows.take(i + 1) =~= rows.take(i as int).push(rows[i as int]));
        assert((old(pending)@ + rows.take(i as int)).push(row) =~= old(pending)@ + rows.take(
            i + 1,
        ));
        i = i + 1;
    }
    assert(rows.take(i as int) =~= rows);
    i
}

} // verus!
