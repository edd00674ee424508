//! A model of the log that the paginator reads, and what a run of the
//! paginator over it inserts.

use crate::schedulers::paginator::{
    after_insert, batch_of, greatest, least, request_of, started, summary_of, AfterInsert,
    FetchingPage, PageRequest, RunSummary,
};
use vstd::prelude::*;

verus! {

/// Whether the ids fall strictly from each to the next: a log, newest
/// event first, in which no id occurs twice.
pub open spec fn descending(feed: Seq<i64>) -> bool {
    forall|i: int, j: int| 0 <= i < j < feed.len() ==> feed[i] > feed[j]
}

/// Whether every id is above zero.
pub open spec fn positive(feed: Seq<i64>) -> bool {
    forall|i: int| 0 <= i < feed.len() ==> feed[i] > 0
}

/// Whether an id answers a request's bounds: above `lower`, and below
/// `upper` unless `upper` is zero.
pub open spec fn within(id: i64, lower: i64, upper: i64) -> bool {
    id > lower && (upper == 0 || id < upper)
}

/// The ids of `feed` within the bounds, in the order of the feed.
pub open spec fn in_range(feed: Seq<i64>, lower: i64, upper: i64) -> Seq<i64>
    decreases feed.len(),
{
    if feed.len() == 0 {
        Seq::empty()
    } else {
        let rest = in_range(feed.drop_first(), lower, upper);
        if within(feed[0], lower, upper) {
            seq![feed[0]] + rest
        } else {
            rest
        }
    }
}

/// The first `limit` of `ids`, or all of them where they are fewer.
pub open spec fn first_ids(ids: Seq<i64>, limit: nat) -> Seq<i64> {
    if ids.len() <= limit {
        ids
    } else {
        ids.take(limit as int)
    }
}

/// The page that the log `feed` answers a request with.
pub open spec fn page_of(feed: Seq<i64>, request: PageRequest) -> Seq<i64> {
    first_ids(in_range(feed, request.min_id, request.max_id), request.limit as nat)
}

/// The pages that a run inserts, in order, when every request is answered
/// from `feed` and every insert succeeds. The run makes at most `fuel`
/// requests.
pub open spec fn pages_of_run(state: FetchingPage, feed: Seq<i64>, fuel: nat) -> Seq<Seq<i64>>
    decreases fuel,
{
    if fuel == 0 {
        Seq::empty()
    } else {
        let page = page_of(feed, request_of(state));
        match batch_of(state, page) {
            None => Seq::empty(),
            Some(batch) => match after_insert(batch) {
                AfterInsert::Finished(_) => seq![page],
                AfterInsert::Fetch(next) => seq![page] + pages_of_run(
                    next,
                    feed,
                    (fuel - 1) as nat,
                ),
            },
        }
    }
}

/// The number of requests that a run makes: one for each page that it
/// inserts, and a last one where that comes back empty.
pub open spec fn requests_of_run(state: FetchingPage, feed: Seq<i64>, fuel: nat) -> nat
    decreases fuel,
{
    if fuel == 0 {
        0
    } else {
        let page = page_of(feed, request_of(state));
        match batch_of(state, page) {
            None => 1,
            Some(batch) => match after_insert(batch) {
                AfterInsert::Finished(_) => 1,
                AfterInsert::Fetch(next) => 1 + requests_of_run(next, feed, (fuel - 1) as nat),
            },
        }
    }
}

/// What a run reports when it is over, under the same conditions.
pub open spec fn summary_of_run(state: FetchingPage, feed: Seq<i64>, fuel: nat) -> RunSummary
    decreases fuel,
{
    if fuel == 0 {
        summary_of(state)
    } else {
        let page = page_of(feed, request_of(state));
        match batch_of(state, page) {
            None => summary_of(state),
            Some(batch) => match after_insert(batch) {
                AfterInsert::Finished(summary) => summary,
                AfterInsert::Fetch(next) => summary_of_run(next, feed, (fuel - 1) as nat),
            },
        }
    }
}

/// A count, held at the greatest `usize`.
pub open spec fn capped(n: int) -> usize {
    if n > usize::MAX {
        usize::MAX
    } else {
        n as usize
    }
}

/// The pages of a whole run over `feed` from the watermark `watermark`.
pub open spec fn run(watermark: u64, page_size: usize, feed: Seq<i64>) -> Seq<Seq<i64>> {
    pages_of_run(started(watermark, page_size), feed, feed.len() + 1)
}

/// The ids of all pages, one page after the other.
pub open spec fn all_ids(pages: Seq<Seq<i64>>) -> Seq<i64>
    decreases pages.len(),
{
    if pages.len() == 0 {
        Seq::empty()
    } else {
        pages[0] + all_ids(pages.drop_first())
    }
}

/// The event ids that the store holds after `ids` were inserted.
pub open spec fn stored_after(stored: Seq<u64>, ids: Seq<i64>) -> Seq<u64> {
    stored + ids.map_values(|id: i64| id as u64)
}

/// The watermark of a store: the greatest event id that it holds, zero
/// where it holds none.
pub open spec fn watermark_of(stored: Seq<u64>) -> u64
    decreases stored.len(),
{
    if stored.len() == 0 {
        0
    } else {
        let rest = watermark_of(stored.drop_last());
        if stored.last() > rest {
            stored.last()
        } else {
            rest
        }
    }
}

/// What is within the bounds of a descending log is itself descending,
/// within the bounds, and no newer than the log's newest id.
pub proof fn lemma_in_range_descending(feed: Seq<i64>, lower: i64, upper: i64)
    requires
        descending(feed),
    ensures
        descending(in_range(feed, lower, upper)),
        in_range(feed, lower, upper).len() <= feed.len(),
        forall|k: int|
            0 <= k < in_range(feed, lower, upper).len() ==> within(
                #[trigger] in_range(feed, lower, upper)[k],
                lower,
                upper,
            ) && in_range(feed, lower, upper)[k] <= feed[0],
    decreases feed.len(),
{
    if feed.len() > 0 {
        let rest = feed.drop_first();
        assert(descending(rest)) by {
            assert forall|i: int, j: int| 0 <= i < j < rest.len() implies rest[i] > rest[j] by {
                assert(feed[i + 1] > feed[j + 1]);
            }
        }
        lemma_in_range_descending(rest, lower, upper);
        let inner = in_range(rest, lower, upper);
        let seg = in_range(feed, lower, upper);
        assert forall|k: int| 0 <= k < inner.len() implies #[trigger] inner[k] < feed[0] by {
            assert(inner[k] <= rest[0]);
            assert(rest[0] == feed[1]);
        }
        if within(feed[0], lower, upper) {
            assert(seg == seq![feed[0]] + inner);
            assert forall|k: int| 0 <= k < seg.len() implies within(#[trigger] seg[k], lower, upper)
                && seg[k] <= feed[0] by {
                if k > 0 {
                    assert(seg[k] == inner[k - 1]);
                }
            }
            assert forall|i: int, j: int| 0 <= i < j < seg.len() implies seg[i] > seg[j] by {
                assert(seg[j] == inner[j - 1]);
                if i > 0 {
                    assert(seg[i] == inner[i - 1]);
                }
            }
        } else {
            assert(seg == inner);
            assert forall|k: int| 0 <= k < seg.len() implies within(#[trigger] seg[k], lower, upper)
                && seg[k] <= feed[0] by {
                assert(inner[k] < feed[0]);
            }
        }
    }
}

/// Where every id is below `bound`, and `bound` is no weaker than `upper`,
/// the bound `bound` lets through what `upper` lets through.
pub proof fn lemma_tighter_upper(ids: Seq<i64>, lower: i64, upper: i64, bound: i64)
    requires
        forall|i: int| 0 <= i < ids.len() ==> ids[i] < bound,
        bound > 0,
        upper == 0 || bound <= upper,
    ensures
        in_range(ids, lower, bound) == in_range(ids, lower, upper),
    decreases ids.len(),
{
    if ids.len() > 0 {
        let rest = ids.drop_first();
        assert forall|i: int| 0 <= i < rest.len() implies rest[i] < bound by {
            assert(rest[i] == ids[i + 1]);
        }
        lemma_tighter_upper(rest, lower, upper, bound);
        assert(ids[0] < bound);
    }
}

/// Where no id is above `lower`, nothing is within the bounds.
pub proof fn lemma_nothing_above(ids: Seq<i64>, lower: i64, upper: i64)
    requires
        forall|i: int| 0 <= i < ids.len() ==> ids[i] <= lower,
    ensures
        in_range(ids, lower, upper) == Seq::<i64>::empty(),
    decreases ids.len(),
{
    if ids.len() > 0 {
        let rest = ids.drop_first();
        assert forall|i: int| 0 <= i < rest.len() implies rest[i] <= lower by {
            assert(rest[i] == ids[i + 1]);
        }
        lemma_nothing_above(rest, lower, upper);
        assert(ids[0] <= lower);
    }
}

/// In a descending log, what lies below the `k`-th id within the bounds is
/// what follows the first `k` ids within the bounds.
pub proof fn lemma_below_page(feed: Seq<i64>, lower: i64, upper: i64, k: int)
    requires
        descending(feed),
        0 < k <= in_range(feed, lower, upper).len(),
        in_range(feed, lower, upper)[k - 1] > 0,
    ensures
        in_range(feed, lower, in_range(feed, lower, upper)[k - 1]) == in_range(
            feed,
            lower,
            upper,
        ).skip(k),
    decreases feed.len(),
{
    let seg = in_range(feed, lower, upper);
    let bound = seg[k - 1];
    if feed.len() > 0 {
        let rest = feed.drop_first();
        assert(descending(rest)) by {
            assert forall|i: int, j: int| 0 <= i < j < rest.len() implies rest[i] > rest[j] by {
                assert(feed[i + 1] > feed[j + 1]);
            }
        }
        let inner = in_range(rest, lower, upper);
        lemma_in_range_descending(rest, lower, upper);
        lemma_in_range_descending(feed, lower, upper);
        assert forall|i: int| 0 <= i < rest.len() implies rest[i] < feed[0] by {
            assert(rest[i] == feed[i + 1]);
        }
        if within(feed[0], lower, upper) {
            assert(seg == seq![feed[0]] + inner);
            if k == 1 {
                assert(bound == feed[0]);
                lemma_tighter_upper(rest, lower, upper, bound);
                assert(seg.skip(1) =~= inner);
            } else {
                assert(bound == inner[k - 2]);
                lemma_below_page(rest, lower, upper, k - 1);
                assert(inner[k - 2] <= rest[0]);
                assert(rest[0] == feed[1]);
                assert(bound < feed[0]);
                assert(seg.skip(k) =~= inner.skip(k - 1));
            }
        } else {
            assert(seg == inner);
            lemma_below_page(rest, lower, upper, k);
            assert(inner[k - 1] <= rest[0]);
            assert(rest[0] == feed[1]);
            assert(bound < feed[0]);
        }
    }
}

/// The least id of descending ids is the last, and the greatest is the
/// first.
pub proof fn lemma_bounds_of_descending(ids: Seq<i64>)
    requires
        descending(ids),
        positive(ids),
        ids.len() > 0,
    ensures
        least(ids) == ids.last(),
        greatest(ids) == ids[0] as u64,
    decreases ids.len(),
{
    if ids.len() > 1 {
        let before = ids.drop_last();
        assert(descending(before)) by {
            assert forall|i: int, j: int| 0 <= i < j < before.len() implies before[i]
                > before[j] by {
                assert(ids[i] > ids[j]);
            }
        }
        assert(positive(before)) by {
            assert forall|i: int| 0 <= i < before.len() implies before[i] > 0 by {
                assert(before[i] == ids[i]);
            }
        }
        lemma_bounds_of_descending(before);
        assert(before.last() == ids[ids.len() - 2]);
        assert(ids[ids.len() - 2] > ids[ids.len() - 1]);
        assert(before[0] == ids[0]);
        assert(ids[0] > ids[ids.len() - 1]);
        assert(ids[ids.len() - 1] > 0);
        assert(least(before) == ids[ids.len() - 2]);
        assert(greatest(before) == ids[0] as u64);
        assert(least(ids) == ids.last());
        assert(ids.last() as u64 <= ids[0] as u64);
        assert(greatest(ids) == ids[0] as u64);
    } else {
        let before = ids.drop_last();
        assert(before.len() == 0);
        assert(least(before) == i64::MAX);
        assert(greatest(before) == 0);
        assert(ids[0] > 0);
        assert(ids.last() == ids[0]);
    }
}

/// A run over a descending log of positive ids inserts what the log holds
/// within the run's bounds: every such id once, newest first. Every page
/// but the last is full, and no page is empty.
pub proof fn lemma_run_collects(state: FetchingPage, feed: Seq<i64>, fuel: nat)
    requires
        descending(feed),
        positive(feed),
        state.page_size > 0,
        fuel > in_range(feed, state.lower, state.upper).len(),
    ensures
        all_ids(pages_of_run(state, feed, fuel)) == in_range(feed, state.lower, state.upper),
        forall|p: int|
            0 <= p < pages_of_run(state, feed, fuel).len() ==> 0 < (#[trigger] pages_of_run(
                state,
                feed,
                fuel,
            )[p]).len() <= state.page_size,
        forall|p: int|
            0 <= p < pages_of_run(state, feed, fuel).len() - 1 ==> (#[trigger] pages_of_run(
                state,
                feed,
                fuel,
            )[p]).len() == state.page_size,
    decreases fuel,
{
    let seg = in_range(feed, state.lower, state.upper);
    let page = page_of(feed, request_of(state));
    let pages = pages_of_run(state, feed, fuel);
    lemma_in_range_descending(feed, state.lower, state.upper);
    if seg.len() == 0 {
        assert(pages =~= Seq::<Seq<i64>>::empty());
    } else {
        assert(page.len() > 0);
        assert(page.len() <= state.page_size);
        let batch = batch_of(state, page)->0;
        assert(batch.batch_len == page.len());
        match after_insert(batch) {
            AfterInsert::Finished(_) => {
                assert(page == seg);
                assert(pages == seq![page]);
                assert(pages.drop_first() =~= Seq::<Seq<i64>>::empty());
                assert(all_ids(pages.drop_first()) =~= Seq::<i64>::empty());
                assert(pages[0] == seg);
                assert(all_ids(pages) =~= seg);
            },
            AfterInsert::Fetch(next) => {
                let k = state.page_size as int;
                assert(page == seg.take(k));
                assert(descending(page)) by {
                    assert forall|i: int, j: int| 0 <= i < j < page.len() implies page[i]
                        > page[j] by {
                        assert(seg[i] > seg[j]);
                    }
                }
                assert(positive(page)) by {
                    assert forall|i: int| 0 <= i < page.len() implies page[i] > 0 by {
                        assert(within(seg[i], state.lower, state.upper));
                        lemma_member_positive(feed, state.lower, state.upper, i);
                    }
                }
                lemma_bounds_of_descending(page);
                assert(next.upper == seg[k - 1]);
                assert(seg[k - 1] == page[k - 1]);
                assert(page[k - 1] > 0);
                lemma_below_page(feed, state.lower, state.upper, k);
                assert(in_range(feed, next.lower, next.upper) == seg.skip(k));
                lemma_run_collects(next, feed, (fuel - 1) as nat);
                let later = pages_of_run(next, feed, (fuel - 1) as nat);
                assert(pages == seq![page] + later);
                assert(pages.drop_first() =~= later);
                assert(pages[0] == page);
                assert(all_ids(pages) =~= seg.take(k) + seg.skip(k));
                assert(seg.take(k) + seg.skip(k) =~= seg);
                assert forall|p: int| 0 <= p < pages.len() implies 0 < (#[trigger] pages[p]).len()
                    <= state.page_size by {
                    if p > 0 {
                        assert(pages[p] == later[p - 1]);
                    }
                }
                assert forall|p: int| 0 <= p < pages.len() - 1 implies (#[trigger] pages[p]).len()
                    == state.page_size by {
                    if p > 0 {
                        assert(pages[p] == later[p - 1]);
                    }
                }
            },
        }
    }
}

/// What is within bounds of a log of positive ids is positive.
pub proof fn lemma_member_positive(feed: Seq<i64>, lower: i64, upper: i64, k: int)
    requires
        positive(feed),
        0 <= k < in_range(feed, lower, upper).len(),
    ensures
        in_range(feed, lower, upper)[k] > 0,
    decreases feed.len(),
{
    if feed.len() > 0 {
        let rest = feed.drop_first();
        assert(positive(rest)) by {
            assert forall|i: int| 0 <= i < rest.len() implies rest[i] > 0 by {
                assert(rest[i] == feed[i + 1]);
            }
        }
        assert(feed[0] > 0);
        if within(feed[0], lower, upper) {
            if k > 0 {
                lemma_member_positive(rest, lower, upper, k - 1);
            }
        } else {
            lemma_member_positive(rest, lower, upper, k);
        }
    }
}

/// Every id of the log that is within the bounds is among the ids within
/// the bounds.
pub proof fn lemma_in_range_complete(feed: Seq<i64>, lower: i64, upper: i64, i: int)
    requires
        0 <= i < feed.len(),
        within(feed[i], lower, upper),
    ensures
        exists|k: int|
            0 <= k < in_range(feed, lower, upper).len() && in_range(feed, lower, upper)[k]
                == feed[i],
    decreases feed.len(),
{
    let rest = feed.drop_first();
    let inner = in_range(rest, lower, upper);
    let seg = in_range(feed, lower, upper);
    if i == 0 {
        assert(seg[0] == feed[0]);
    } else {
        assert(rest[i - 1] == feed[i]);
        lemma_in_range_complete(rest, lower, upper, i - 1);
        let k = choose|k: int| 0 <= k < inner.len() && inner[k] == rest[i - 1];
        if within(feed[0], lower, upper) {
            assert(seg[k + 1] == inner[k]);
        } else {
            assert(seg[k] == inner[k]);
        }
    }
}

/// No id that the store holds is above its watermark, and the watermark is
/// zero or one of the ids.
pub proof fn lemma_watermark(stored: Seq<u64>)
    ensures
        forall|i: int| 0 <= i < stored.len() ==> stored[i] <= watermark_of(stored),
        watermark_of(stored) == 0 || exists|i: int|
            0 <= i < stored.len() && stored[i] == watermark_of(stored),
    decreases stored.len(),
{
    if stored.len() > 0 {
        let before = stored.drop_last();
        lemma_watermark(before);
        assert forall|i: int| 0 <= i < stored.len() implies stored[i] <= watermark_of(stored) by {
            if i < before.len() {
                assert(before[i] == stored[i]);
            }
        }
        if watermark_of(stored) != 0 {
            if stored.last() > watermark_of(before) {
                assert(stored[stored.len() - 1] == watermark_of(stored));
            } else {
                let i = choose|i: int| 0 <= i < before.len() && before[i] == watermark_of(before);
                assert(stored[i] == watermark_of(stored));
            }
        }
    }
}

/// A whole run inserts every event of the log that is newer than the
/// watermark, each once and newest first, and nothing else. Every page but
/// the last is full, no page is empty, and the run asks once more than it
/// gets full pages.
pub proof fn lemma_run_inserts_what_is_newer(watermark: u64, page_size: usize, feed: Seq<i64>)
    requires
        descending(feed),
        positive(feed),
        page_size > 0,
        watermark <= i64::MAX,
    ensures
        all_ids(run(watermark, page_size, feed)) == in_range(feed, watermark as i64, 0),
        forall|k: int|
            0 <= k < all_ids(run(watermark, page_size, feed)).len() ==> (#[trigger] all_ids(
                run(watermark, page_size, feed),
            )[k]) > watermark,
        forall|p: int|
            0 <= p < run(watermark, page_size, feed).len() ==> 0 < (#[trigger] run(
                watermark,
                page_size,
                feed,
            )[p]).len() <= page_size,
        forall|p: int|
            0 <= p < run(watermark, page_size, feed).len() - 1 ==> (#[trigger] run(
                watermark,
                page_size,
                feed,
            )[p]).len() == page_size,
        requests_of_run(started(watermark, page_size), feed, feed.len() + 1) == in_range(
            feed,
            watermark as i64,
            0,
        ).len() / (page_size as nat) + 1,
{
    let state = started(watermark, page_size);
    lemma_in_range_descending(feed, state.lower, 0);
    lemma_run_collects(state, feed, feed.len() + 1);
    lemma_run_requests(state, feed, feed.len() + 1);
}

/// A run asks once for every full page that is within its bounds, and once
/// more.
pub proof fn lemma_run_requests(state: FetchingPage, feed: Seq<i64>, fuel: nat)
    requires
        descending(feed),
        positive(feed),
        state.page_size > 0,
        fuel > in_range(feed, state.lower, state.upper).len(),
    ensures
        requests_of_run(state, feed, fuel) == in_range(feed, state.lower, state.upper).len() / (
        state.page_size as nat) + 1,
    decreases fuel,
{
    let seg = in_range(feed, state.lower, state.upper);
    let page = page_of(feed, request_of(state));
    let size = state.page_size as int;
    lemma_in_range_descending(feed, state.lower, state.upper);
    if seg.len() == 0 {
        assert(0int / size == 0) by (nonlinear_arith)
            requires
                size > 0,
        ;
    } else {
        let batch = batch_of(state, page)->0;
        assert(batch.batch_len == page.len());
        match after_insert(batch) {
            AfterInsert::Finished(_) => {
                let n = seg.len() as int;
                assert(n / size == 0) by (nonlinear_arith)
                    requires
                        0 <= n < size,
                ;
            },
            AfterInsert::Fetch(next) => {
                assert(page == seg.take(size));
                assert(descending(page)) by {
                    assert forall|i: int, j: int| 0 <= i < j < page.len() implies page[i]
                        > page[j] by {
                        assert(seg[i] > seg[j]);
                    }
                }
                assert(positive(page)) by {
                    assert forall|i: int| 0 <= i < page.len() implies page[i] > 0 by {
                        lemma_member_positive(feed, state.lower, state.upper, i);
                    }
                }
                lemma_bounds_of_descending(page);
                assert(seg[size - 1] == page[size - 1]);
                lemma_below_page(feed, state.lower, state.upper, size);
                assert(in_range(feed, next.lower, next.upper) == seg.skip(size));
                lemma_run_requests(next, feed, (fuel - 1) as nat);
                let n = seg.len() as int;
                assert((n - size) / size + 1 == n / size) by (nonlinear_arith)
                    requires
                        n >= size > 0,
                ;
            },
        }
    }
}

/// A run that directly follows a whole run over the same log inserts
/// nothing: the first run has moved the store's watermark up to the newest
/// event of the log.
pub proof fn lemma_second_run_inserts_nothing(stored: Seq<u64>, page_size: usize, feed: Seq<i64>)
    requires
        descending(feed),
        positive(feed),
        watermark_of(stored) <= i64::MAX,
    ensures
        run(
            watermark_of(
                stored_after(stored, all_ids(run(watermark_of(stored), page_size, feed))),
            ),
            page_size,
            feed,
        ) == Seq::<Seq<i64>>::empty(),
{
    let before = watermark_of(stored);
    let inserted = all_ids(run(before, page_size, feed));
    let after = stored_after(stored, inserted);
    let seg = in_range(feed, before as i64, 0);
    if page_size == 0 {
        return ;
    }
    lemma_run_inserts_what_is_newer(before, page_size, feed);
    lemma_watermark(stored);
    lemma_watermark(after);
    assert(before <= watermark_of(after)) by {
        if before != 0 {
            let i = choose|i: int| 0 <= i < stored.len() && stored[i] == before;
            assert(after[i] == stored[i]);
        }
    }
    assert(watermark_of(after) <= i64::MAX) by {
        if watermark_of(after) != 0 {
            let i = choose|i: int| 0 <= i < after.len() && after[i] == watermark_of(after);
            if i < stored.len() {
                assert(after[i] == stored[i]);
            } else {
                assert(after[i] == inserted[i - stored.len()] as u64);
                lemma_member_positive(feed, before as i64, 0, i - stored.len());
            }
        }
    }
    let next = watermark_of(after) as i64;
    assert forall|i: int| 0 <= i < feed.len() implies feed[i] <= next by {
        if feed[i] > before as i64 {
            lemma_in_range_complete(feed, before as i64, 0, i);
            let k = choose|k: int| 0 <= k < seg.len() && seg[k] == feed[i];
            assert(after[stored.len() + k] == inserted[k] as u64);
            assert(feed[i] > 0);
        }
    }
    lemma_nothing_above(feed, next, 0);
}

/// A run counts every event that it inserts, and reports the newest id
/// among them as the store's next watermark, unless it had seen a newer
/// one before.
pub proof fn lemma_run_summary(state: FetchingPage, feed: Seq<i64>, fuel: nat)
    requires
        descending(feed),
        positive(feed),
        state.page_size > 0,
        fuel > in_range(feed, state.lower, state.upper).len(),
    ensures
        ({
            let seg = in_range(feed, state.lower, state.upper);
            let summary = summary_of_run(state, feed, fuel);
            &&& summary.total_inserted == capped(state.total_inserted + seg.len())
            &&& summary.new_last_id == (if seg.len() > 0 && seg[0] as u64 > state.new_last_id {
                seg[0] as u64
            } else {
                state.new_last_id
            })
        }),
    decreases fuel,
{
    let seg = in_range(feed, state.lower, state.upper);
    let page = page_of(feed, request_of(state));
    let size = state.page_size as int;
    lemma_in_range_descending(feed, state.lower, state.upper);
    if seg.len() > 0 {
        let batch = batch_of(state, page)->0;
        assert(batch.batch_len == page.len());
        assert(descending(page)) by {
            assert forall|i: int, j: int| 0 <= i < j < page.len() implies page[i] > page[j] by {
                assert(seg[i] > seg[j]);
            }
        }
        assert(positive(page)) by {
            assert forall|i: int| 0 <= i < page.len() implies page[i] > 0 by {
                lemma_member_positive(feed, state.lower, state.upper, i);
            }
        }
        lemma_bounds_of_descending(page);
        assert(page[0] == seg[0]);
        match after_insert(batch) {
            AfterInsert::Finished(_) => {
                assert(page == seg);
            },
            AfterInsert::Fetch(next) => {
                assert(page == seg.take(size));
                assert(seg[size - 1] == page[size - 1]);
                lemma_below_page(feed, state.lower, state.upper, size);
                let rest = seg.skip(size);
                assert(in_range(feed, next.lower, next.upper) == rest);
                lemma_run_summary(next, feed, (fuel - 1) as nat);
                if rest.len() > 0 {
                    assert(rest[0] == seg[size]);
                    assert(seg[0] > seg[size]);
                    lemma_member_positive(feed, state.lower, state.upper, size);
                }
            },
        }
    }
}

/// A whole run reports how many events it inserted, and the newest id of
/// the log as the next watermark; where nothing was newer than the
/// watermark it reports nothing inserted and no id.
pub proof fn lemma_whole_run_summary(watermark: u64, page_size: usize, feed: Seq<i64>)
    requires
        descending(feed),
        positive(feed),
        page_size > 0,
        watermark <= i64::MAX,
    ensures
        ({
            let newer = in_range(feed, watermark as i64, 0);
            let summary = summary_of_run(started(watermark, page_size), feed, feed.len() + 1);
            &&& summary.total_inserted == capped(newer.len() as int)
            &&& summary.new_last_id == (if newer.len() > 0 {
                newer[0] as u64
            } else {
                0
            })
        }),
{
    let state = started(watermark, page_size);
    lemma_in_range_descending(feed, state.lower, 0);
    lemma_run_summary(state, feed, feed.len() + 1);
    let newer = in_range(feed, watermark as i64, 0);
    if newer.len() > 0 {
        lemma_member_positive(feed, state.lower, 0, 0);
    }
}

} // verus!
