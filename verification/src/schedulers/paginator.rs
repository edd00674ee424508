//! One run of the paginator over a chat's administrative log: from the
//! watermark that the store holds, page by page towards older events, until
//! a page comes back empty or short.

use crate::db::AdminAction;
use crate::schedulers::admin_actions::{
    admin_rows, are_admin_rows, page_can_be_logged, AdminLogPage, AuditEvent,
};
use vstd::prelude::*;

verus! {

/// The seconds between two runs.
pub const INTERVAL_SECS: u64 = 60;

/// The number of events that one request asks for.
pub const PAGE_SIZE: usize = 100;

/// A request for one page of the log: at most `limit` events with an id
/// above `min_id` and below `max_id`, newest first. A `max_id` of zero sets
/// no upper bound.
#[derive(Clone, Copy, Debug, PartialEq, Eq, Structural)]
pub struct PageRequest {
    pub min_id: i64,
    pub max_id: i64,
    pub limit: usize,
}

/// What a run did: how many rows it handed over for insertion, and the
/// highest event id among them, zero where there was none.
#[derive(Clone, Copy, Debug, PartialEq, Eq, Structural)]
pub struct RunSummary {
    pub total_inserted: usize,
    pub new_last_id: u64,
}

/// A run that waits for a page.
#[derive(Clone, Copy, Debug, PartialEq, Eq, Structural)]
pub struct FetchingPage {
    /// The watermark: only events above it are asked for.
    pub lower: i64,
    /// The lowest id seen so far in this run, zero before the first page.
    pub upper: i64,
    pub page_size: usize,
    pub total_inserted: usize,
    pub new_last_id: u64,
}

/// A run that waits for the insert of a page's rows.
#[derive(Clone, Copy, Debug, PartialEq, Eq, Structural)]
pub struct InsertingBatch {
    pub lower: i64,
    pub page_size: usize,
    pub total_inserted: usize,
    pub new_last_id: u64,
    /// The number of events in the page.
    pub batch_len: usize,
    /// The lowest event id of the page.
    pub batch_min: i64,
    /// The highest event id of the page.
    pub batch_max: u64,
}

/// What follows a page.
pub enum AfterPage {
    /// The page was empty: the run is over.
    Finished(RunSummary),
    /// The rows of the page are to be inserted as one batch.
    Insert(InsertingBatch, Vec<AdminAction>),
}

/// What follows the insert of a batch.
#[derive(Clone, Copy, Debug, PartialEq, Eq, Structural)]
pub enum AfterInsert {
    /// The page was short: the run is over.
    Finished(RunSummary),
    /// The next, older page is to be fetched.
    Fetch(FetchingPage),
}

/// The watermark of a chat: the highest event id that the store holds for
/// it, zero where it holds none.
pub fn get_last_event_id(max_id: Option<u64>) -> (watermark: u64)
    ensures
        watermark == (match max_id {
            Some(id) => id,
            None => 0,
        }),
{
    match max_id {
        Some(id) => id,
        None => 0,
    }
}

/// The least of `ids`; the greatest `i64` where there is none.
pub open spec fn least(ids: Seq<i64>) -> i64
    decreases ids.len(),
{
    if ids.len() == 0 {
        i64::MAX
    } else {
        let rest = least(ids.drop_last());
        if ids.last() < rest {
            ids.last()
        } else {
            rest
        }
    }
}

/// The greatest of `ids`, each taken as an unsigned number; zero where
/// there is none.
pub open spec fn greatest(ids: Seq<i64>) -> u64
    decreases ids.len(),
{
    if ids.len() == 0 {
        0
    } else {
        let rest = greatest(ids.drop_last());
        if ids.last() as u64 > rest {
            ids.last() as u64
        } else {
            rest
        }
    }
}

/// The ids of a page's events, in order.
pub open spec fn ids_of(events: Seq<AuditEvent>) -> Seq<i64> {
    events.map_values(|e: AuditEvent| e.id)
}

/// The state in which a run starts.
pub open spec fn started(watermark: u64, page_size: usize) -> FetchingPage {
    FetchingPage {
        lower: watermark as i64,
        upper: 0,
        page_size,
        total_inserted: 0,
        new_last_id: 0,
    }
}

/// The request that a run waiting for a page has made.
pub open spec fn request_of(state: FetchingPage) -> PageRequest {
    PageRequest { min_id: state.lower, max_id: state.upper, limit: state.page_size }
}

/// The summary of a run that ends while it waits for a page.
pub open spec fn summary_of(state: FetchingPage) -> RunSummary {
    RunSummary { total_inserted: state.total_inserted, new_last_id: state.new_last_id }
}

/// The state after a page with the event ids `ids` has arrived; none where
/// the page is empty and the run is over.
pub open spec fn batch_of(state: FetchingPage, ids: Seq<i64>) -> Option<InsertingBatch> {
    if ids.len() == 0 {
        None
    } else {
        Some(
            InsertingBatch {
                lower: state.lower,
                page_size: state.page_size,
                total_inserted: state.total_inserted,
                new_last_id: state.new_last_id,
                batch_len: ids.len() as usize,
                batch_min: least(ids),
                batch_max: greatest(ids),
            },
        )
    }
}

/// The sum of two counts, held at the greatest `usize`.
pub open spec fn capped_sum(a: usize, b: usize) -> usize {
    if a + b > usize::MAX {
        usize::MAX
    } else {
        (a + b) as usize
    }
}

/// What follows the insert of a batch: the rows are counted, the highest id
/// is kept, and the run either ends, where the page was short, or goes on
/// below the lowest id of the page.
pub open spec fn after_insert(batch: InsertingBatch) -> AfterInsert {
    let total = capped_sum(batch.total_inserted, batch.batch_len);
    let last = if batch.batch_max > batch.new_last_id {
        batch.batch_max
    } else {
        batch.new_last_id
    };
    if batch.batch_len < batch.page_size {
        AfterInsert::Finished(RunSummary { total_inserted: total, new_last_id: last })
    } else {
        AfterInsert::Fetch(
            FetchingPage {
                lower: batch.lower,
                upper: batch.batch_min,
                page_size: batch.page_size,
                total_inserted: total,
                new_last_id: last,
            },
        )
    }
}

/// Starts a run from the watermark that was just read from the store.
pub fn start(watermark: u64, page_size: usize) -> (state: FetchingPage)
    ensures
        state == started(watermark, page_size),
{
    FetchingPage {
        lower: #[verifier::truncate] (watermark as i64),
        upper: 0,
        page_size,
        total_inserted: 0,
        new_last_id: 0,
    }
}

fn bounds_of(events: &Vec<AuditEvent>) -> (out: (i64, u64))
    ensures
        out.0 == least(ids_of(events@)),
        out.1 == greatest(ids_of(events@)),
{
    let mut low: i64 = i64::MAX;
    let mut high: u64 = 0;
    let mut i: usize = 0;
    assert(ids_of(events@).take(0) =~= Seq::<i64>::empty());
    while i < events.len()
        invariant
            i <= events.len(),
            low == least(ids_of(events@).take(i as int)),
            high == greatest(ids_of(events@).take(i as int)),
        decreases events.len() - i,
    {
        let id = events[i].id;
        proof {
            let ids = ids_of(events@);
            assert(ids.take(i + 1).drop_last() == ids.take(i as int));
            assert(ids.take(i + 1).last() == id);
        }
        if id < low {
            low = id;
        }
        let unsigned: u64 = #[verifier::truncate] (id as u64);
        if unsigned > high {
            high = unsigned;
        }
        i = i + 1;
    }
    assert(ids_of(events@).take(events.len() as int) == ids_of(events@));
    (low, high)
}

impl FetchingPage {
    /// The request for the page that the run waits for.
    pub fn request(&self) -> (request: PageRequest)
        ensures
            request == request_of(*self),
    {
        PageRequest { min_id: self.lower, max_id: self.upper, limit: self.page_size }
    }

    /// Takes the page that was fetched. An empty page ends the run; any
    /// other becomes a batch of rows, one for each event and in their order.
    pub fn on_page(self, page: &AdminLogPage, chat_id: i64) -> (out: AfterPage)
        requires
            page_can_be_logged(*page),
        ensures
            match out {
                AfterPage::Finished(summary) => page.events@.len() == 0 && summary == summary_of(
                    self,
                ),
                AfterPage::Insert(batch, rows) => Some(batch) == batch_of(
                    self,
                    ids_of(page.events@),
                ) && are_admin_rows(rows@, *page, chat_id),
            },
    {
        if page.events.len() == 0 {
            return AfterPage::Finished(
                RunSummary { total_inserted: self.total_inserted, new_last_id: self.new_last_id },
            );
        }
        let rows = admin_rows(page, chat_id);
        let (batch_min, batch_max) = bounds_of(&page.events);
        let batch = InsertingBatch {
            lower: self.lower,
            page_size: self.page_size,
            total_inserted: self.total_inserted,
            new_last_id: self.new_last_id,
            batch_len: page.events.len(),
            batch_min,
            batch_max,
        };
        AfterPage::Insert(batch, rows)
    }
}

impl FetchingPage {
    /// What the run did before the request that failed.
    pub fn on_failure(self) -> (summary: RunSummary)
        ensures
            summary == summary_of(self),
    {
        RunSummary { total_inserted: self.total_inserted, new_last_id: self.new_last_id }
    }
}

impl InsertingBatch {
    /// Takes note that the batch was inserted.
    pub fn on_inserted(self) -> (out: AfterInsert)
        ensures
            out == after_insert(self),
    {
        let total = self.total_inserted.saturating_add(self.batch_len);
        let last = if self.batch_max > self.new_last_id {
            self.batch_max
        } else {
            self.new_last_id
        };
        if self.batch_len < self.page_size {
            AfterInsert::Finished(RunSummary { total_inserted: total, new_last_id: last })
        } else {
            AfterInsert::Fetch(
                FetchingPage {
                    lower: self.lower,
                    upper: self.batch_min,
                    page_size: self.page_size,
                    total_inserted: total,
                    new_last_id: last,
                },
            )
        }
    }

    /// What the run did before the batch whose insert failed.
    pub fn on_failure(self) -> (summary: RunSummary)
        ensures
            summary == (RunSummary {
                total_inserted: self.total_inserted,
                new_last_id: self.new_last_id,
            }),
    {
        RunSummary { total_inserted: self.total_inserted, new_last_id: self.new_last_id }
    }
}

} // verus!
