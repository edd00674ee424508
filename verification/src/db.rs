//! Rows of the destination tables and the write-behind buffer that holds
//! them until they are flushed.

use crate::text::text_of;
use vstd::prelude::*;

verus! {

/// A message that arrived in a group or channel.
#[derive(Clone, Debug, PartialEq, Eq)]
pub struct IncomingMessage {
    pub date_time: u32,
    pub message: String,
    pub chat_title: String,
    pub chat_id: i64,
    pub username: Vec<String>,
    pub first_name: String,
    pub second_name: String,
    pub user_id: u64,
    pub message_id: i64,
    pub chat_usernames: Vec<String>,
    pub reply_to: u64,
    pub client_id: u64,
}

/// A message that this account sent.
#[derive(Clone, Debug, PartialEq, Eq)]
pub struct OutgoingMessage {
    pub date_time: u32,
    pub message: String,
    pub title: String,
    pub id: i64,
    pub admins2: Vec<String>,
    pub usernames: Vec<String>,
    pub message_id: u64,
    pub reply_to: u64,
    pub raw: String,
    pub client_id: u64,
    pub topic_id: i32,
    pub topic_name: String,
}

/// One edit of a message: the content before, the content after, and
/// their line diff.
#[derive(Clone, Debug, PartialEq, Eq)]
pub struct EditedMessage {
    pub date_time: u32,
    pub chat_id: i64,
    pub message_id: i64,
    pub original_message: String,
    pub message: String,
    pub diff: String,
    pub user_id: i64,
    pub client_id: u64,
}

/// The deletion of one message.
#[derive(Clone, Debug, PartialEq, Eq)]
pub struct DeletedMessage {
    pub date_time: u32,
    pub chat_id: i64,
    pub message_id: i64,
    pub client_id: u64,
}

/// One event of a chat's administrative log.
#[derive(Clone, Debug, PartialEq, Eq)]
pub struct AdminAction {
    pub date: u32,
    pub event_id: u64,
    pub chat_id: u64,
    pub action_type: String,
    pub user_id: u64,
    pub message: String,
    pub log_output: String,
    pub usernames: Vec<String>,
    pub chat_usernames: Vec<String>,
    pub chat_title: String,
    pub user_title: String,
}

/// Another device that is signed in to the account.
#[derive(Clone, Debug, PartialEq, Eq)]
pub struct TelegramSession {
    pub hash: i64,
    pub device_model: String,
    pub platform: String,
    pub system_version: Option<String>,
    pub app_name: String,
    pub app_version: Option<String>,
    pub ip: Option<String>,
    pub country: String,
    pub region: String,
    pub date_created: u32,
    pub date_active: u32,
    pub updated_at: u32,
    pub client_id: u64,
}

/// A row that stands for one message of one chat and carries its content.
pub trait MessageRow {
    /// The chat that the message belongs to.
    spec fn chat(&self) -> int;

    /// The message's id within its chat.
    spec fn message(&self) -> int;

    /// The content that the row records for the message.
    spec fn content(&self) -> Seq<char>;

    /// Whether the row is about message `message_id` of chat `chat_id`.
    fn has_key(&self, chat_id: i64, message_id: i64) -> (hit: bool)
        ensures
            hit == (self.chat() == chat_id && self.message() == message_id),
    ;

    /// A copy of the content.
    fn content_string(&self) -> (s: String)
        ensures
            s@ == self.content(),
    ;
}

impl MessageRow for IncomingMessage {
    open spec fn chat(&self) -> int {
        self.chat_id as int
    }

    open spec fn message(&self) -> int {
        self.message_id as int
    }

    open spec fn content(&self) -> Seq<char> {
        self.message@
    }

    fn has_key(&self, chat_id: i64, message_id: i64) -> (hit: bool) {
        self.chat_id == chat_id && self.message_id == message_id
    }

    fn content_string(&self) -> (s: String) {
        self.message.clone()
    }
}

impl MessageRow for EditedMessage {
    open spec fn chat(&self) -> int {
        self.chat_id as int
    }

    open spec fn message(&self) -> int {
        self.message_id as int
    }

    open spec fn content(&self) -> Seq<char> {
        self.message@
    }

    fn has_key(&self, chat_id: i64, message_id: i64) -> (hit: bool) {
        self.chat_id == chat_id && self.message_id == message_id
    }

    fn content_string(&self) -> (s: String) {
        self.message.clone()
    }
}

/// The content of the newest of `rows` that is about message `message_id`
/// of chat `chat_id`, if there is one.
pub open spec fn last_content<T: MessageRow>(rows: Seq<T>, chat_id: int, message_id: int) -> Option<
    Seq<char>,
>
    decreases rows.len(),
{
    if rows.len() == 0 {
        None
    } else if rows.last().chat() == chat_id && rows.last().message() == message_id {
        Some(rows.last().content())
    } else {
        last_content(rows.drop_last(), chat_id, message_id)
    }
}

/// What a lookup of one message yields on one row.
pub open spec fn content_if_about<T: MessageRow>(row: &T, chat_id: int, message_id: int) -> Option<
    Seq<char>,
> {
    if row.chat() == chat_id && row.message() == message_id {
        Some(row.content())
    } else {
        None
    }
}

proof fn lemma_last_hit_is_last_content<T: MessageRow, F: Fn(&T) -> Option<String>>(
    rows: Seq<T>,
    pick: F,
    out: Option<String>,
    chat_id: int,
    message_id: int,
)
    requires
        is_last_hit(rows, pick, out),
        forall|row: &T, r: Option<String>| #[trigger]
            pick.ensures((row,), r) ==> text_of(r) == content_if_about(row, chat_id, message_id),
    ensures
        text_of(out) == last_content(rows, chat_id, message_id),
    decreases rows.len(),
{
    if rows.len() == 0 {
        if let Some(value) = out {
            assert(false);
        }
    } else {
        let before = rows.drop_last();
        let last = rows.len() - 1;
        match out {
            Some(value) => {
                let i = choose|i: int|
                    0 <= i < rows.len() && #[trigger] pick.ensures((&rows[i],), Some(value))
                        && forall|j: int|
                        i < j < rows.len() ==> #[trigger] pick.ensures((&rows[j],), None::<String>);
                if i == last {
                } else {
                    assert(pick.ensures((&rows[last],), None::<String>));
                    assert(pick.ensures((&before[i],), Some(value)));
                    assert forall|j: int| i < j < before.len() implies #[trigger] pick.ensures(
                        (&before[j],),
                        None::<String>,
                    ) by {
                        assert(pick.ensures((&rows[j],), None::<String>));
                    }
                    lemma_last_hit_is_last_content(before, pick, out, chat_id, message_id);
                }
            },
            None => {
                assert(pick.ensures((&rows[last],), None::<String>));
                assert forall|j: int| 0 <= j < before.len() implies #[trigger] pick.ensures(
                    (&before[j],),
                    None::<String>,
                ) by {
                    assert(pick.ensures((&rows[j],), None::<String>));
                }
                lemma_last_hit_is_last_content(before, pick, out, chat_id, message_id);
            },
        }
    }
}

/// How one bulk insert of a drained batch ended.
#[derive(Clone, Copy, Debug, PartialEq, Eq, Structural)]
pub enum InsertOutcome {
    /// Every row was written and the insert was closed.
    Committed,
    /// The insert could not be opened.
    OpenFailed,
    /// A row was refused part-way; the rest of the batch was abandoned.
    WriteFailed,
    /// Every row was written, but closing the insert failed.
    EndFailed,
}

/// The number of rows that a flush of `batch_len` rows reports: all of them
/// when the insert was committed, none otherwise.
pub open spec fn flushed_count(batch_len: nat, outcome: InsertOutcome) -> nat {
    if outcome == InsertOutcome::Committed {
        batch_len
    } else {
        0
    }
}

/// The number of rows that a flush reports for a batch and its outcome.
pub fn flushed_rows(batch_len: usize, outcome: InsertOutcome) -> (n: usize)
    ensures
        n == flushed_count(batch_len as nat, outcome),
{
    match outcome {
        InsertOutcome::Committed => batch_len,
        _ => 0,
    }
}

/// Pending rows of one destination table, in the order they were pushed.
pub struct WriteBuffer<T> {
    table: String,
    pending: Vec<T>,
}

impl<T> View for WriteBuffer<T> {
    type V = Seq<T>;

    /// The pending rows, oldest first.
    closed spec fn view(&self) -> Seq<T> {
        self.pending@
    }
}

/// Whether `out` is what a reverse scan of `rows` with `predicate` may
/// return: the value that the newest row with a value yields, or nothing
/// where no row yields one.
pub open spec fn is_last_hit<T, R, F: Fn(&T) -> Option<R>>(
    rows: Seq<T>,
    predicate: F,
    out: Option<R>,
) -> bool {
    match out {
        Some(value) => exists|i: int|
            0 <= i < rows.len() && #[trigger] predicate.ensures((&rows[i],), Some(value))
                && forall|j: int|
                i < j < rows.len() ==> #[trigger] predicate.ensures((&rows[j],), None::<R>),
        None => forall|j: int|
            0 <= j < rows.len() ==> #[trigger] predicate.ensures((&rows[j],), None::<R>),
    }
}

impl<T> WriteBuffer<T> {
    /// The name of the destination table.
    pub closed spec fn table(&self) -> Seq<char> {
        self.table@
    }

    /// An empty buffer for `table`.
    pub fn new(table: &str) -> (buffer: Self)
        ensures
            buffer@ == Seq::<T>::empty(),
            buffer.table() == table@,
    {
        WriteBuffer { table: table.to_owned(), pending: Vec::new() }
    }

    /// The destination table's name.
    pub fn table_name(&self) -> (name: &str)
        ensures
            name@ == self.table(),
    {
        self.table.as_str()
    }

    /// The number of pending rows.
    pub fn len(&self) -> (n: usize)
        ensures
            n == self@.len(),
    {
        self.pending.len()
    }

    /// Whether no row is pending.
    pub fn is_empty(&self) -> (empty: bool)
        ensures
            empty == (self@.len() == 0),
    {
        self.pending.len() == 0
    }

    /// Appends `row` to the pending rows.
    pub fn push(&mut self, row: T)
        ensures
            final(self)@ == old(self)@.push(row),
            final(self).table() == old(self).table(),
    {
        self.pending.push(row);
    }

    /// Scans the pending rows from the newest to the oldest and returns the
    /// first value that `predicate` yields.
    pub fn find_last<R, F: Fn(&T) -> Option<R>>(&self, predicate: F) -> (out: Option<R>)
        requires
            forall|i: int| 0 <= i < self@.len() ==> #[trigger] predicate.requires((&self@[i],)),
        ensures
            is_last_hit(self@, predicate, out),
    {
        let mut i: usize = self.pending.len();
        while i > 0
            invariant
                i <= self.pending.len(),
                forall|k: int|
                    0 <= k < self@.len() ==> #[trigger] predicate.requires((&self@[k],)),
                forall|j: int|
                    i <= j < self@.len() ==> #[trigger] predicate.ensures(
                        (&self@[j],),
                        None::<R>,
                    ),
            decreases i,
        {
            i = i - 1;
            assert(predicate.requires((&self@[i as int],)));
            let found = predicate(&self.pending[i]);
            if found.is_some() {
                assert(predicate.ensures((&self@[i as int],), Some(found->0)));
                return found;
            }
        }
        None
    }

    /// Takes every pending row out of the buffer, oldest first. Where
    /// nothing is pending there is no batch, and nothing to insert.
    pub fn take_batch(&mut self) -> (batch: Option<Vec<T>>)
        ensures
            final(self)@ == Seq::<T>::empty(),
            final(self).table() == old(self).table(),
            old(self)@.len() == 0 <==> batch is None,
            batch matches Some(rows) ==> rows@ == old(self)@,
    {
        if self.pending.len() == 0 {
            None
        } else {
            let mut rows: Vec<T> = Vec::new();
            std::mem::swap(&mut self.pending, &mut rows);
            Some(rows)
        }
    }

    /// Drains the buffer and hands the batch to `insert`, once, as one bulk
    /// insert into the destination table. Returns the number of rows flushed:
    /// the size of the batch where the insert was committed, zero otherwise.
    /// An empty buffer makes no call of `insert`.
    pub fn flush<F: FnOnce(&str, Vec<T>) -> InsertOutcome>(&mut self, insert: F) -> (n: usize)
        requires
            forall|name: &str, rows: Vec<T>|
                name@ == old(self).table() && rows@ == old(self)@ && rows@.len() > 0
                    ==> #[trigger] insert.requires((name, rows)),
        ensures
            final(self)@ == Seq::<T>::empty(),
            final(self).table() == old(self).table(),
            old(self)@.len() == 0 ==> n == 0,
            old(self)@.len() > 0 ==> exists|name: &str, rows: Vec<T>, outcome: InsertOutcome|
                name@ == old(self).table() && rows@ == old(self)@ && #[trigger] insert.ensures(
                    (name, rows),
                    outcome,
                ) && n == flushed_count(old(self)@.len(), outcome),
            n == 0 || n == old(self)@.len(),
    {
        match self.take_batch() {
            None => 0,
            Some(rows) => {
                let count = rows.len();
                let ghost handed = rows;
                let name = self.table.as_str();
                let outcome = insert(name, rows);
                assert(insert.ensures((name, handed), outcome));
                flushed_rows(count, outcome)
            },
        }
    }

    /// One step of a buffer that is fed through a channel and flushed on a
    /// timer: a row is appended; a tick or the closing of the channel drains
    /// what is pending, if anything is.
    pub fn on_event(&mut self, event: BufferEvent<T>) -> (action: BufferAction<T>)
        ensures
            final(self).table() == old(self).table(),
            match event {
                BufferEvent::Row(row) => final(self)@ == old(self)@.push(row)
                    && action is Wait,
                BufferEvent::Tick => final(self)@ == Seq::<T>::empty() && (if old(self)@.len()
                    == 0 {
                    action is Wait
                } else {
                    action matches BufferAction::Flush(rows) && rows@ == old(self)@
                }),
                BufferEvent::Closed => final(self)@ == Seq::<T>::empty() && (if old(self)@.len()
                    == 0 {
                    action is Stop
                } else {
                    action matches BufferAction::FlushAndStop(rows) && rows@ == old(self)@
                }),
            },
    {
        match event {
            BufferEvent::Row(row) => {
                self.push(row);
                BufferAction::Wait
            },
            BufferEvent::Tick => match self.take_batch() {
                Some(rows) => BufferAction::Flush(rows),
                None => BufferAction::Wait,
            },
            BufferEvent::Closed => match self.take_batch() {
                Some(rows) => BufferAction::FlushAndStop(rows),
                None => BufferAction::Stop,
            },
        }
    }
}

impl<T: MessageRow> WriteBuffer<T> {
    /// The content of the newest pending row about message `message_id` of
    /// chat `chat_id`.
    pub fn find_message(&self, chat_id: i64, message_id: i64) -> (out: Option<String>)
        ensures
            text_of(out) == last_content(self@, chat_id as int, message_id as int),
    {
        let pick = |row: &T| -> (r: Option<String>)
            ensures
                text_of(r) == content_if_about(row, chat_id as int, message_id as int),
            {
                if row.has_key(chat_id, message_id) {
                    Some(row.content_string())
                } else {
                    None
                }
            };
        let out = self.find_last(pick);
        proof {
            lemma_last_hit_is_last_content(self@, pick, out, chat_id as int, message_id as int);
        }
        out
    }
}

/// A scan finds the value of a pending row, where the predicate yields
/// that value on the row and nothing on every newer row.
pub proof fn lemma_scan_finds_newest<T, R, F: Fn(&T) -> Option<R>>(
    rows: Seq<T>,
    predicate: F,
    out: Option<R>,
    i: int,
    value: R,
)
    requires
        is_last_hit(rows, predicate, out),
        0 <= i < rows.len(),
        forall|r: Option<R>| #[trigger] predicate.ensures((&rows[i],), r) ==> r == Some(value),
        forall|j: int, r: Option<R>|
            i < j < rows.len() && #[trigger] predicate.ensures((&rows[j],), r) ==> r is None,
    ensures
        out == Some(value),
{
    match out {
        Some(found) => {
            let k = choose|k: int|
                0 <= k < rows.len() && #[trigger] predicate.ensures((&rows[k],), Some(found))
                    && forall|j: int|
                    k < j < rows.len() ==> #[trigger] predicate.ensures((&rows[j],), None::<R>);
            if k < i {
                assert(predicate.ensures((&rows[i],), None::<R>));
            }
        },
        None => {
            assert(predicate.ensures((&rows[i],), None::<R>));
        },
    }
}

/// What is done to a buffer, one step at a time.
pub enum BufferOp<T> {
    /// A row is pushed.
    Push(T),
    /// The pending rows are drained to be flushed.
    Drain,
}

/// The pending rows after `ops` were done to an empty buffer, in order.
pub open spec fn pending_after<T>(ops: Seq<BufferOp<T>>) -> Seq<T>
    decreases ops.len(),
{
    if ops.len() == 0 {
        Seq::empty()
    } else {
        match ops.last() {
            BufferOp::Push(row) => pending_after(ops.drop_last()).push(row),
            BufferOp::Drain => Seq::empty(),
        }
    }
}

/// The rows that left an empty buffer in the batches drained by `ops`, one
/// batch after the other.
pub open spec fn drained_by<T>(ops: Seq<BufferOp<T>>) -> Seq<T>
    decreases ops.len(),
{
    if ops.len() == 0 {
        Seq::empty()
    } else {
        match ops.last() {
            BufferOp::Push(_) => drained_by(ops.drop_last()),
            BufferOp::Drain => drained_by(ops.drop_last()) + pending_after(ops.drop_last()),
        }
    }
}

/// The rows that `ops` pushed, in order.
pub open spec fn pushed_by<T>(ops: Seq<BufferOp<T>>) -> Seq<T>
    decreases ops.len(),
{
    if ops.len() == 0 {
        Seq::empty()
    } else {
        match ops.last() {
            BufferOp::Push(row) => pushed_by(ops.drop_last()).push(row),
            BufferOp::Drain => pushed_by(ops.drop_last()),
        }
    }
}

/// Every row that was pushed is either still pending or has left the
/// buffer in one batch: none is lost, and none leaves twice.
pub proof fn lemma_rows_leave_once<T>(ops: Seq<BufferOp<T>>)
    ensures
        drained_by(ops) + pending_after(ops) == pushed_by(ops),
    decreases ops.len(),
{
    if ops.len() == 0 {
        assert(drained_by(ops) + pending_after(ops) =~= pushed_by(ops));
    } else {
        let before = ops.drop_last();
        lemma_rows_leave_once(before);
        match ops.last() {
            BufferOp::Push(row) => {
                assert(drained_by(before) + pending_after(before).push(row) =~= (drained_by(before)
                    + pending_after(before)).push(row));
            },
            BufferOp::Drain => {
                assert(drained_by(before) + pending_after(before) + Seq::<T>::empty() =~= drained_by(
                    before,
                ) + pending_after(before));
            },
        }
    }
}

/// What reaches a buffer that is fed through a channel.
pub enum BufferEvent<T> {
    /// The flush timer fired.
    Tick,
    /// A producer sent a row.
    Row(T),
    /// Every producer is gone.
    Closed,
}

/// What the owner of the buffer does after an event.
pub enum BufferAction<T> {
    /// Nothing; wait for the next event.
    Wait,
    /// Insert the batch, then wait for the next event.
    Flush(Vec<T>),
    /// Insert the batch, then stop.
    FlushAndStop(Vec<T>),
    /// Stop.
    Stop,
}

/// Where the durable store is reached, and as whom.
#[derive(Clone, Debug, PartialEq, Eq)]
pub struct StoreConfig {
    pub url: String,
    pub user: String,
    pub password: String,
    pub database: String,
}

/// The configuration of the durable store, from the four settings that
/// have to be present when the process starts.
pub fn clickhouse(url: String, user: String, password: String, database: String) -> (config:
    StoreConfig)
    ensures
        config.url@ == url@,
        config.user@ == user@,
        config.password@ == password@,
        config.database@ == database@,
{
    StoreConfig { url, user, password, database }
}

/// The table of the incoming messages.
pub open spec fn incoming_table() -> Seq<char> {
    "chats_log"@
}

/// The table of the edits.
pub open spec fn edited_table() -> Seq<char> {
    "edited_log"@
}

/// The table of the deletions.
pub open spec fn deleted_table() -> Seq<char> {
    "deleted_log"@
}

/// An empty buffer for the incoming messages.
pub fn incoming_buffer() -> (buffer: WriteBuffer<IncomingMessage>)
    ensures
        buffer@ == Seq::<IncomingMessage>::empty(),
        buffer.table() == incoming_table(),
{
    WriteBuffer::new("chats_log")
}

/// An empty buffer for the edits.
pub fn edited_buffer() -> (buffer: WriteBuffer<EditedMessage>)
    ensures
        buffer@ == Seq::<EditedMessage>::empty(),
        buffer.table() == edited_table(),
{
    WriteBuffer::new("edited_log")
}

/// An empty buffer for the deletions.
pub fn deleted_buffer() -> (buffer: WriteBuffer<DeletedMessage>)
    ensures
        buffer@ == Seq::<DeletedMessage>::empty(),
        buffer.table() == deleted_table(),
{
    WriteBuffer::new("deleted_log")
}

} // verus!
