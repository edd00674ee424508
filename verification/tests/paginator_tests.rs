use chatlog::schedulers::admin_actions::{
    ActionKind, AdminLogPage, AuditAction, AuditEvent,
};
use chatlog::schedulers::paginator::{
    get_last_event_id, start, AfterInsert, AfterPage, FetchingPage, PageRequest, RunSummary,
    PAGE_SIZE,
};

fn event(id: i64) -> AuditEvent {
    AuditEvent {
        id,
        date: 100,
        user_id: 1,
        action: AuditAction {
            kind: ActionKind::ParticipantJoin,
            debug: "ParticipantJoin".to_string(),
            json: "{}".to_string(),
        },
    }
}

/// A log that answers a request as the transport does: the events above
/// `min_id` and below `max_id`, newest first, at most `limit` of them.
fn fetch(feed: &[i64], request: PageRequest) -> AdminLogPage {
    let mut ids: Vec<i64> = feed
        .iter()
        .copied()
        .filter(|id| *id > request.min_id && (request.max_id == 0 || *id < request.max_id))
        .collect();
    ids.sort();
    ids.reverse();
    ids.truncate(request.limit);
    AdminLogPage { events: ids.into_iter().map(event).collect(), users: vec![], chats: vec![] }
}

/// Runs the paginator against a log and a store of event ids; returns the
/// sizes of the pages that were fetched and the run's summary.
fn run(feed: &[i64], store: &mut Vec<u64>, page_size: usize) -> (Vec<usize>, RunSummary) {
    let watermark = get_last_event_id(store.iter().copied().max());
    let mut state: FetchingPage = start(watermark, page_size);
    let mut fetched = Vec::new();
    loop {
        let page = fetch(feed, state.request());
        fetched.push(page.events.len());
        match state.on_page(&page, 7) {
            AfterPage::Finished(summary) => return (fetched, summary),
            AfterPage::Insert(batch, rows) => {
                store.extend(rows.iter().map(|r| r.event_id));
                match batch.on_inserted() {
                    AfterInsert::Finished(summary) => return (fetched, summary),
                    AfterInsert::Fetch(next) => state = next,
                }
            }
        }
    }
}

#[test]
fn watermark_is_zero_for_an_empty_store() {
    assert_eq!(get_last_event_id(None), 0);
    assert_eq!(get_last_event_id(Some(150)), 150);
}

#[test]
fn run_starts_without_upper_bound() {
    let state = start(150, PAGE_SIZE);
    assert_eq!(state.request(), PageRequest { min_id: 150, max_id: 0, limit: 100 });
    assert_eq!(state.total_inserted, 0);
    assert_eq!(state.new_last_id, 0);
}

#[test]
fn pages_of_250_events_are_100_100_50() {
    let feed: Vec<i64> = (1..=250).collect();
    let mut store = Vec::new();
    let (fetched, summary) = run(&feed, &mut store, 100);
    assert_eq!(fetched, vec![100, 100, 50]);
    assert_eq!(summary, RunSummary { total_inserted: 250, new_last_id: 250 });
    store.sort();
    assert_eq!(store, (1..=250).collect::<Vec<u64>>());
}

#[test]
fn exact_multiple_of_the_page_size_ends_with_an_empty_page() {
    let feed: Vec<i64> = (1..=200).collect();
    let mut store = Vec::new();
    let (fetched, summary) = run(&feed, &mut store, 100);
    assert_eq!(fetched, vec![100, 100, 0]);
    assert_eq!(summary, RunSummary { total_inserted: 200, new_last_id: 200 });
    assert_eq!(store.len(), 200);
}

#[test]
fn second_run_without_new_events_inserts_nothing() {
    let feed: Vec<i64> = (1..=250).collect();
    let mut store = Vec::new();
    run(&feed, &mut store, 100);
    let before = store.len();
    let (fetched, summary) = run(&feed, &mut store, 100);
    assert_eq!(fetched, vec![0]);
    assert_eq!(summary, RunSummary { total_inserted: 0, new_last_id: 0 });
    assert_eq!(store.len(), before);
}

#[test]
fn run_resumes_above_the_watermark() {
    let mut store: Vec<u64> = (1..=150).collect();
    let feed: Vec<i64> = (1..=200).collect();
    let (fetched, summary) = run(&feed, &mut store, 100);
    assert_eq!(fetched, vec![50]);
    assert_eq!(summary, RunSummary { total_inserted: 50, new_last_id: 200 });
    let mut inserted: Vec<u64> = store[150..].to_vec();
    inserted.sort();
    assert_eq!(inserted, (151..=200).collect::<Vec<u64>>());
    store.sort();
    assert_eq!(store, (1..=200).collect::<Vec<u64>>());
}

#[test]
fn empty_log_ends_the_run_at_once() {
    let mut store = Vec::new();
    let (fetched, summary) = run(&[], &mut store, 100);
    assert_eq!(fetched, vec![0]);
    assert_eq!(summary, RunSummary { total_inserted: 0, new_last_id: 0 });
    assert!(store.is_empty());
}

#[test]
fn next_request_goes_below_the_lowest_id_of_the_page() {
    let state = start(10, 3);
    let page = AdminLogPage { events: vec![event(50), event(40), event(30)], users: vec![], chats: vec![] };
    match state.on_page(&page, 7) {
        AfterPage::Insert(batch, rows) => {
            assert_eq!(rows.len(), 3);
            assert_eq!(batch.batch_min, 30);
            assert_eq!(batch.batch_max, 50);
            assert_eq!(batch.batch_len, 3);
            match batch.on_inserted() {
                AfterInsert::Fetch(next) => {
                    assert_eq!(next.request(), PageRequest { min_id: 10, max_id: 30, limit: 3 });
                    assert_eq!(next.total_inserted, 3);
                    assert_eq!(next.new_last_id, 50);
                }
                AfterInsert::Finished(_) => panic!("a full page is followed by another request"),
            }
        }
        AfterPage::Finished(_) => panic!("a page with events is inserted"),
    }
}

#[test]
fn short_page_ends_the_run_after_its_insert() {
    let state = start(10, 3);
    let page = AdminLogPage { events: vec![event(50), event(40)], users: vec![], chats: vec![] };
    match state.on_page(&page, 7) {
        AfterPage::Insert(batch, _) => {
            assert_eq!(batch.on_inserted(), AfterInsert::Finished(RunSummary { total_inserted: 2, new_last_id: 50 }));
            assert_eq!(batch.on_failure(), RunSummary { total_inserted: 0, new_last_id: 0 });
        }
        AfterPage::Finished(_) => panic!("a page with events is inserted"),
    }
}

#[test]
fn watermark_candidate_is_the_highest_id_of_the_first_page() {
    let feed: Vec<i64> = vec![900, 700, 500, 300, 100];
    let mut store = Vec::new();
    let (fetched, summary) = run(&feed, &mut store, 2);
    assert_eq!(fetched, vec![2, 2, 1]);
    assert_eq!(summary.new_last_id, 900);
    assert_eq!(store, vec![900, 700, 500, 300, 100]);
}
