//! The tick that flushes every buffer.

use crate::db::{
    flushed_count, DeletedMessage, EditedMessage, IncomingMessage, InsertOutcome, WriteBuffer,
};
use vstd::prelude::*;

verus! {

/// The seconds between two ticks.
pub const INTERVAL_SECS: u64 = 10;

/// The rows that one tick flushed, buffer by buffer.
#[derive(Clone, Copy, Debug, PartialEq, Eq, Structural)]
pub struct FlushCounts {
    pub incoming: usize,
    pub edited: usize,
    pub deleted: usize,
}

impl FlushCounts {
    /// Whether the tick flushed any row.
    pub open spec fn any(self) -> bool {
        self.incoming + self.edited + self.deleted > 0
    }

    /// Whether the tick flushed any row, and so is worth a line in the log.
    pub fn is_worth_logging(&self) -> (worth: bool)
        ensures
            worth == self.any(),
    {
        self.incoming > 0 || self.edited > 0 || self.deleted > 0
    }
}

/// Whether `count` is what a flush of `rows` to the table `table` through
/// `insert` may report: nothing for no rows, else the number of rows or
/// nothing, as the one insert of all of them ended.
pub open spec fn is_flush_of<T, F: FnOnce(&str, Vec<T>) -> InsertOutcome>(
    count: usize,
    rows: Seq<T>,
    table: Seq<char>,
    insert: F,
) -> bool {
    if rows.len() == 0 {
        count == 0
    } else {
        exists|name: &str, batch: Vec<T>, outcome: InsertOutcome|
            name@ == table && batch@ == rows && #[trigger] insert.ensures((name, batch), outcome)
                && count == flushed_count(rows.len(), outcome)
    }
}

/// One tick: flushes the incoming messages, then the edits, then the
/// deletions, each through its own insert, whatever the others did.
pub fn flush_all<
    F1: FnOnce(&str, Vec<IncomingMessage>) -> InsertOutcome,
    F2: FnOnce(&str, Vec<EditedMessage>) -> InsertOutcome,
    F3: FnOnce(&str, Vec<DeletedMessage>) -> InsertOutcome,
>(
    incoming: &mut WriteBuffer<IncomingMessage>,
    edited: &mut WriteBuffer<EditedMessage>,
    deleted: &mut WriteBuffer<DeletedMessage>,
    insert_incoming: F1,
    insert_edited: F2,
    insert_deleted: F3,
) -> (counts: FlushCounts)
    requires
        forall|name: &str, rows: Vec<IncomingMessage>|
            name@ == old(incoming).table() && rows@ == old(incoming)@ && rows@.len() > 0
                ==> #[trigger] insert_incoming.requires((name, rows)),
        forall|name: &str, rows: Vec<EditedMessage>|
            name@ == old(edited).table() && rows@ == old(edited)@ && rows@.len() > 0
                ==> #[trigger] insert_edited.requires((name, rows)),
        forall|name: &str, rows: Vec<DeletedMessage>|
            name@ == old(deleted).table() && rows@ == old(deleted)@ && rows@.len() > 0
                ==> #[trigger] insert_deleted.requires((name, rows)),
    ensures
        final(incoming)@ == Seq::<IncomingMessage>::empty(),
        final(edited)@ == Seq::<EditedMessage>::empty(),
        final(deleted)@ == Seq::<DeletedMessage>::empty(),
        final(incoming).table() == old(incoming).table(),
        final(edited).table() == old(edited).table(),
        final(deleted).table() == old(deleted).table(),
        is_flush_of(counts.incoming, old(incoming)@, old(incoming).table(), insert_incoming),
        is_flush_of(counts.edited, old(edited)@, old(edited).table(), insert_edited),
        is_flush_of(counts.deleted, old(deleted)@, old(deleted).table(), insert_deleted),
{
    let incoming_count = incoming.flush(insert_incoming);
    let edited_count = edited.flush(insert_edited);
    let deleted_count = deleted.flush(insert_deleted);
    FlushCounts { incoming: incoming_count, edited: edited_count, deleted: deleted_count }
}

} // verus!
