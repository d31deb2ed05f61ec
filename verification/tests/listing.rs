use superposition_service::error::HttpError;
use superposition_service::experiments::listing::{
    get_experiment, is_not_modified, list_experiments, ExperimentFilter, ListAction, ListAnswer, ListEvent,
    ListFilters, ListState, PageQuery, SortOrder,
};
use superposition_service::experiments::types::{ExperimentStatusType, Fetched};
use superposition_service::time::Timestamp;

fn at(secs: i64) -> Timestamp {
    Timestamp { secs, nanos: 0 }
}

fn filters(page: Option<i64>, count: Option<i64>) -> ListFilters {
    ListFilters {
        status: None,
        from_date: None,
        to_date: None,
        page,
        count,
    }
}

fn request(
    latest: Result<Option<Timestamp>, ()>,
    if_modified_since: Option<&[u8]>,
    filters: ListFilters,
) -> (ListState, ListAction<u8>) {
    list_experiments(
        ListState::Start,
        ListEvent::Requested {
            latest,
            if_modified_since: if_modified_since.map(|b| b.to_vec()),
            filters,
        },
    )
}

fn failed(step: (ListState, ListAction<u8>), status: u16, message: &str, possible_fix: &str) {
    match step {
        (ListState::Done, ListAction::Respond(ListAnswer::Failed(e))) => {
            assert_eq!(e.status, status);
            assert_eq!(e.message, message);
            assert_eq!(e.possible_fix, possible_fix);
        }
        _ => panic!("expected a failure"),
    }
}

fn is_unchanged(latest: Option<i64>, header: Option<&[u8]>) -> bool {
    match request(Ok(latest.map(at)), header, filters(None, None)) {
        (ListState::Done, ListAction::Respond(ListAnswer::NotModified)) => true,
        (ListState::Timing { .. }, ListAction::ReadClock) => false,
        _ => panic!("unexpected step"),
    }
}

#[test]
fn unchanged_since_the_named_time() {
    let header: &[u8] = b"Thu, 01 Jan 1970 00:01:40 +0000";
    assert!(is_unchanged(Some(99), Some(header)));
    assert!(!is_unchanged(Some(100), Some(header)));
    assert!(!is_unchanged(Some(101), Some(header)));
    assert!(!is_unchanged(None, Some(header)));
    assert!(!is_unchanged(Some(99), None));
}

#[test]
fn last_change_before_the_named_time() {
    assert!(is_not_modified(Some(at(99)), Some(at(100))));
    assert!(!is_not_modified(Some(at(100)), Some(at(100))));
    assert!(!is_not_modified(Some(at(101)), Some(at(100))));
    assert!(!is_not_modified(None, Some(at(100))));
    assert!(!is_not_modified(Some(at(99)), None));
    assert!(!is_not_modified(None, None));
}

#[test]
fn headers_that_say_no_time() {
    assert!(!is_unchanged(Some(0), Some(b"yesterday")));
    assert!(!is_unchanged(Some(0), Some(b"")));
    assert!(!is_unchanged(Some(0), Some(b"Thu, 01 Jan 1970 00:01:40 +0000\xff")));
    assert!(!is_unchanged(Some(0), Some(b"\0")));
}

#[test]
fn zone_of_the_named_time_counts() {
    let header: &[u8] = b"Thu, 01 Jan 1970 01:00:10 +0100";
    assert!(is_unchanged(Some(9), Some(header)));
    assert!(!is_unchanged(Some(10), Some(header)));
}

#[test]
fn lookup_of_the_last_change_fails() {
    failed(
        request(Err(()), None, filters(None, None)),
        500,
        "Something went wrong",
        "Please try again later",
    );
}

fn query(filters: ListFilters) -> (PageQuery, ExperimentFilter) {
    let (state, _) = request(Ok(None), None, filters);
    let event = ListEvent::<u8>::Timed {
        page_now: Timestamp { secs: 200_000, nanos: 7 },
        count_now: Timestamp { secs: 200_001, nanos: 8 },
    };
    match list_experiments(state, event) {
        (ListState::Counting { query }, ListAction::Count(filter)) => (query, filter),
        _ => panic!("expected a count"),
    }
}

#[test]
fn default_period_is_the_last_day() {
    let (page, count) = query(filters(None, None));
    assert_eq!(page.filter.to, Timestamp { secs: 200_000, nanos: 7 });
    assert_eq!(page.filter.from, Timestamp { secs: 113_600, nanos: 7 });
    assert_eq!(count.to, Timestamp { secs: 200_001, nanos: 8 });
    assert_eq!(count.from, Timestamp { secs: 113_601, nanos: 8 });
    assert!(page.filter.status.is_none());
    assert_eq!(page.order, SortOrder::NewestFirst);
    assert_eq!(page.limit, 10);
    assert_eq!(page.offset, 0);
}

#[test]
fn given_filters_are_used() {
    let wanted = vec![ExperimentStatusType::CREATED, ExperimentStatusType::INPROGRESS];
    let (page, count) = query(ListFilters {
        status: Some(wanted.clone()),
        from_date: Some(at(5)),
        to_date: Some(at(6)),
        page: Some(3),
        count: Some(20),
    });
    assert_eq!(page.filter.status, Some(wanted.clone()));
    assert_eq!(count.status, Some(wanted));
    assert_eq!((page.filter.from, page.filter.to), (at(5), at(6)));
    assert_eq!((count.from, count.to), (at(5), at(6)));
    assert_eq!((page.limit, page.offset), (20, 40));
}

#[test]
fn pages_adjoin() {
    for page in [1, 2, 9] {
        let (this, _) = query(filters(Some(page), Some(7)));
        let (following, _) = query(filters(Some(page + 1), Some(7)));
        assert_eq!(following.offset, this.offset + this.limit);
    }
    assert_eq!(query(filters(Some(0), Some(7))).0.offset, -7);
}

#[test]
fn pages_hold_every_row_once() {
    for total in [0i64, 1, 6, 7, 8, 20, 21] {
        let rows: Vec<i64> = (0..total).collect();
        let pages = (total + 6) / 7;
        let mut seen: Vec<i64> = Vec::new();
        for page in 1..=pages + 1 {
            let (query, _) = query(filters(Some(page), Some(7)));
            let held: Vec<i64> = rows
                .iter()
                .copied()
                .skip(query.offset as usize)
                .take(query.limit as usize)
                .collect();
            if page < pages {
                assert_eq!(held.len(), 7);
            }
            assert_eq!(held.is_empty(), page == pages + 1);
            seen.extend(held);
        }
        assert_eq!(seen, rows);
    }
}

fn counted(outcome: Fetched<i64>) -> (ListState, ListAction<u8>) {
    let (query, _) = query(filters(Some(2), Some(5)));
    list_experiments(ListState::Counting { query }, ListEvent::Counted(outcome))
}

#[test]
fn page_is_loaded_after_the_count() {
    for (outcome, expected) in [(Fetched::Found(12), 12), (Fetched::NotFound, 0)] {
        match counted(outcome) {
            (ListState::Loading { total_items }, ListAction::Load { query, total_items: counted }) => {
                assert_eq!(total_items, expected);
                assert_eq!(counted, expected);
                assert_eq!((query.limit, query.offset), (5, 5));
            }
            _ => panic!("expected a page to be loaded"),
        }
    }
    failed(
        counted(Fetched::Failed),
        500,
        "Something went wrong",
        "Please try again later",
    );
}

fn loaded(rows: Fetched<Vec<u8>>) -> (ListState, ListAction<u8>) {
    list_experiments(
        ListState::Loading { total_items: 12 },
        ListEvent::Loaded { rows, total_pages: 3 },
    )
}

#[test]
fn page_is_answered() {
    match loaded(Fetched::Found(vec![1, 2])) {
        (ListState::Done, ListAction::Respond(ListAnswer::Page(page))) => {
            assert_eq!(page.total_items, 12);
            assert_eq!(page.total_pages, 3);
            assert_eq!(page.data, vec![1, 2]);
        }
        _ => panic!("expected a page"),
    }
    failed(
        loaded(Fetched::NotFound),
        404,
        "No results found for your query",
        "Update your filter parameters",
    );
    failed(
        loaded(Fetched::Failed),
        500,
        "Something went wrong",
        "Please try again later",
    );
}

#[test]
fn one_experiment_is_shown() {
    assert_eq!(get_experiment(Fetched::Found(4u8)), Ok(4));
    assert_eq!(
        get_experiment::<u8>(Fetched::NotFound),
        Err(HttpError::not_found("Experiment not found"))
    );
    assert_eq!(get_experiment::<u8>(Fetched::Failed), Err(HttpError::internal("")));
}
