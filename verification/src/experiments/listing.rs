//! Listing experiments, and showing one.
use vstd::prelude::*;

use crate::error::HttpError;
use crate::headers::{ascii_text, header_text, is_visible};
use crate::time::{
    day_before, one_day_before, parse_rfc2822, rfc2822_instant, rfc2822_time, Timestamp, MAX_SECS,
    MIN_SECS,
};

use super::types::{ExperimentStatusType, Fetched};

verus! {

/// An error answer of the list of experiments.
#[derive(Debug)]
pub struct ListError {
    pub message: String,
    pub possible_fix: String,
    pub status: u16,
}

impl ListError {
    pub open spec fn says(self, status: u16, message: Seq<char>, possible_fix: Seq<char>) -> bool {
        &&& self.status == status
        &&& self.message@ == message
        &&& self.possible_fix@ == possible_fix
    }

    fn new(status: u16, message: &str, possible_fix: &str) -> (r: ListError)
        ensures
            r.says(status, message@, possible_fix@),
    {
        ListError {
            message: message.to_owned(),
            possible_fix: possible_fix.to_owned(),
            status,
        }
    }
}

/// Which experiments are asked for, and which page of them.
pub struct ListFilters {
    pub status: Option<Vec<ExperimentStatusType>>,
    pub from_date: Option<Timestamp>,
    pub to_date: Option<Timestamp>,
    pub page: Option<i64>,
    pub count: Option<i64>,
}

/// The experiments with one of the statuses, if any are named, that were last modified in a
/// period, its ends included.
pub struct ExperimentFilter {
    pub status: Option<Vec<ExperimentStatusType>>,
    pub from: Timestamp,
    pub to: Timestamp,
}

/// How experiments are sorted, by the time of their last modification.
#[derive(Clone, Copy, Debug, PartialEq, Eq, Structural)]
pub enum SortOrder {
    OldestFirst,
    NewestFirst,
}

/// A page of the experiments that pass a filter: `limit` of them behind the first `offset`, in the
/// given order.
pub struct PageQuery {
    pub filter: ExperimentFilter,
    pub order: SortOrder,
    pub limit: i64,
    pub offset: i64,
}

/// A page of experiments.
pub struct ExperimentsPage<R> {
    pub total_items: i64,
    pub total_pages: i64,
    pub data: Vec<R>,
}

/// The time that the header `If-Modified-Since` says, if it is there and says one.
pub open spec fn modified_since(header: Option<Vec<u8>>) -> Option<Timestamp> {
    match header {
        Some(bytes) => if is_visible(bytes@) {
            rfc2822_time(ascii_text(bytes@))
        } else {
            None
        },
        None => None,
    }
}

/// Nothing changed since the caller last asked: there was a change, and the last one came before
/// the time that the caller names.
pub open spec fn is_unchanged(latest: Option<Timestamp>, since: Option<Timestamp>) -> bool {
    &&& latest matches Some(change)
    &&& since matches Some(time)
    &&& change.before(time)
}

/// Whether nothing changed since the caller last asked, from the time of the last change and the
/// time that the caller names.
pub fn is_not_modified(latest: Option<Timestamp>, since: Option<Timestamp>) -> (r: bool)
    ensures
        r == is_unchanged(latest, since),
{
    match (latest, since) {
        (Some(change), Some(time)) => change.is_before(&time),
        _ => false,
    }
}

fn read_modified_since(header: &Option<Vec<u8>>) -> (r: Option<Timestamp>)
    ensures
        r == modified_since(*header),
{
    match header {
        Some(bytes) => match header_text(bytes.as_slice()) {
            Some(text) => parse_rfc2822(text.as_str()),
            None => None,
        },
        None => None,
    }
}

/// The number of experiments on a page.
pub open spec fn page_limit(filters: ListFilters) -> int {
    match filters.count {
        Some(count) => count as int,
        None => 10,
    }
}

/// The number of experiments on the pages in front of page `page`, with `limit` on each.
pub open spec fn page_start(page: int, limit: int) -> int {
    (page - 1) * limit
}

/// The page that is asked for; without a number, the first one.
pub open spec fn page_number(filters: ListFilters) -> int {
    match filters.page {
        Some(page) => page as int,
        None => 1,
    }
}

/// The number of experiments on the pages in front of the one that is asked for.
pub open spec fn page_offset(filters: ListFilters) -> int {
    page_start(page_number(filters), page_limit(filters))
}

/// The page that is asked for can be counted out in 64 bits.
pub open spec fn page_in_range(filters: ListFilters) -> bool {
    &&& filters.page matches Some(page) ==> page > i64::MIN
    &&& i64::MIN <= page_offset(filters) <= i64::MAX
}

/// The filter that is asked for at a time: without a period, the one of the last 24 hours.
pub open spec fn is_filter_at(
    filter: ExperimentFilter,
    filters: ListFilters,
    now: Timestamp,
) -> bool {
    &&& match filters.status {
        Some(wanted) => filter.status matches Some(status) && status@ == wanted@,
        None => filter.status is None,
    }
    &&& filter.from == (match filters.from_date {
        Some(from) => from,
        None => day_before(now),
    })
    &&& filter.to == (match filters.to_date {
        Some(to) => to,
        None => now,
    })
}

fn filter_at(filters: &ListFilters, now: Timestamp) -> (r: ExperimentFilter)
    requires
        now.is_clock_time(),
        MIN_SECS + 86400 <= now.secs,
    ensures
        is_filter_at(r, *filters, now),
{
    let status: Option<Vec<ExperimentStatusType>> = match &filters.status {
        Some(wanted) => {
            let mut copy: Vec<ExperimentStatusType> = Vec::new();
            for i in 0..wanted.len()
                invariant
                    copy@ == wanted@.take(i as int),
            {
                copy.push(wanted[i]);
                assert(copy@ =~= wanted@.take(i as int + 1));
            }
            assert(copy@ =~= wanted@);
            Some(copy)
        },
        None => None,
    };
    let day: Timestamp = one_day_before(now);
    let from: Timestamp = match filters.from_date {
        Some(from) => from,
        None => day,
    };
    let to: Timestamp = match filters.to_date {
        Some(to) => to,
        None => now,
    };
    ExperimentFilter { status, from, to }
}

/// Where listing experiments stands.
pub enum ListState {
    /// The time of the last change is being looked up.
    Start,
    /// The clock is being read.
    Timing { filters: ListFilters },
    /// The experiments are being counted.
    Counting { query: PageQuery },
    /// The page is being loaded, of so many experiments.
    Loading { total_items: i64 },
    /// The request was answered.
    Done,
}

/// What happened outside. `R` is an experiment as the answer shows it.
pub enum ListEvent<R> {
    /// The lookup of the last change ended. `if_modified_since` is the value of that header.
    Requested {
        latest: Result<Option<Timestamp>, ()>,
        if_modified_since: Option<Vec<u8>>,
        filters: ListFilters,
    },
    /// The clock was read, for the page and for the count.
    Timed { page_now: Timestamp, count_now: Timestamp },
    /// The experiments were counted.
    Counted(Fetched<i64>),
    /// The page was loaded. `total_pages` is the number of pages of all experiments.
    Loaded { rows: Fetched<Vec<R>>, total_pages: i64 },
}

/// The answer to a request for a list.
pub enum ListAnswer<R> {
    NotModified,
    Page(ExperimentsPage<R>),
    Failed(ListError),
}

/// What to do next.
pub enum ListAction<R> {
    /// Read the clock, for the page and then for the count.
    ReadClock,
    /// Count the experiments that pass the filter.
    Count(ExperimentFilter),
    /// Load the page, and count the pages of this size that so many experiments fill.
    Load { query: PageQuery, total_items: i64 },
    /// Answer the request.
    Respond(ListAnswer<R>),
}

impl ListState {
    /// The event belongs to the state.
    pub open spec fn accepts<R>(self, event: ListEvent<R>) -> bool {
        match event {
            ListEvent::Requested { .. } => self is Start,
            ListEvent::Timed { page_now, count_now } => {
                &&& self matches ListState::Timing { filters }
                &&& page_in_range(filters)
                &&& page_now.is_clock_time()
                &&& count_now.is_clock_time()
                &&& MIN_SECS + 86400 <= page_now.secs
                &&& MIN_SECS + 86400 <= count_now.secs
            },
            ListEvent::Counted(_) => self is Counting,
            ListEvent::Loaded { .. } => self is Loading,
        }
    }
}

/// The machine ends, and the request fails with this answer.
pub open spec fn fails<R>(
    next: ListState,
    action: ListAction<R>,
    status: u16,
    message: Seq<char>,
    possible_fix: Seq<char>,
) -> bool {
    &&& next is Done
    &&& action matches ListAction::Respond(ListAnswer::Failed(e))
    &&& e.says(status, message, possible_fix)
}

/// The step that the machine takes in a state on an event.
pub open spec fn list_step<R>(
    state: ListState,
    event: ListEvent<R>,
    next: ListState,
    action: ListAction<R>,
) -> bool {
    match (state, event) {
        (_, ListEvent::Requested { latest, if_modified_since, filters }) => match latest {
            Err(_) => fails(next, action, 500, "Something went wrong"@, "Please try again later"@),
            Ok(change) => if is_unchanged(change, modified_since(if_modified_since)) {
                &&& next is Done
                &&& action == ListAction::<R>::Respond(ListAnswer::NotModified)
            } else {
                &&& next == (ListState::Timing { filters })
                &&& action is ReadClock
            },
        },
        (ListState::Timing { filters }, ListEvent::Timed { page_now, count_now }) => {
            &&& next matches ListState::Counting { query }
            &&& is_filter_at(query.filter, filters, page_now)
            &&& query.order == SortOrder::NewestFirst
            &&& query.limit == page_limit(filters)
            &&& query.offset == page_offset(filters)
            &&& action matches ListAction::Count(filter)
            &&& is_filter_at(filter, filters, count_now)
        },
        (ListState::Counting { query }, ListEvent::Counted(outcome)) => match outcome {
            Fetched::Found(count) => {
                &&& next == (ListState::Loading { total_items: count })
                &&& action == (ListAction::<R>::Load { query, total_items: count })
            },
            Fetched::NotFound => {
                &&& next == (ListState::Loading { total_items: 0 })
                &&& action == (ListAction::<R>::Load { query, total_items: 0 })
            },
            Fetched::Failed => fails(
                next,
                action,
                500,
                "Something went wrong"@,
                "Please try again later"@,
            ),
        },
        (ListState::Loading { total_items }, ListEvent::Loaded { rows, total_pages }) => match rows {
            Fetched::Found(data) => {
                &&& next is Done
                &&& action == ListAction::<R>::Respond(
                    ListAnswer::Page(ExperimentsPage { total_items, total_pages, data }),
                )
            },
            Fetched::NotFound => fails(
                next,
                action,
                404,
                "No results found for your query"@,
                "Update your filter parameters"@,
            ),
            Fetched::Failed => fails(
                next,
                action,
                500,
                "Something went wrong"@,
                "Please try again later"@,
            ),
        },
        _ => false,
    }
}

fn fail<R>(status: u16, message: &str, possible_fix: &str) -> (r: (ListState, ListAction<R>))
    ensures
        fails(r.0, r.1, status, message@, possible_fix@),
{
    let e = ListError::new(status, message, possible_fix);
    (ListState::Done, ListAction::Respond(ListAnswer::Failed(e)))
}

/// Takes the next step of listing experiments.
pub fn list_experiments<R>(state: ListState, event: ListEvent<R>) -> (r: (
    ListState,
    ListAction<R>,
))
    requires
        state.accepts(event),
    ensures
        list_step(state, event, r.0, r.1),
{
    match (state, event) {
        (_, ListEvent::Requested { latest, if_modified_since, filters }) => {
            let change: Option<Timestamp> = match latest {
                Ok(change) => change,
                Err(_) => {
                    return fail(500, "Something went wrong", "Please try again later");
                },
            };
            if is_not_modified(change, read_modified_since(&if_modified_since)) {
                return (ListState::Done, ListAction::Respond(ListAnswer::NotModified));
            }
            (ListState::Timing { filters }, ListAction::ReadClock)
        },
        (ListState::Timing { filters }, ListEvent::Timed { page_now, count_now }) => {
            let page_filter: ExperimentFilter = filter_at(&filters, page_now);
            let count_filter: ExperimentFilter = filter_at(&filters, count_now);
            let limit: i64 = match filters.count {
                Some(count) => count,
                None => 10,
            };
            let page: i64 = match filters.page {
                Some(page) => page,
                None => 1,
            };
            let offset: i64 = (page - 1) * limit;
            let query = PageQuery {
                filter: page_filter,
                order: SortOrder::NewestFirst,
                limit,
                offset,
            };
            (ListState::Counting { query }, ListAction::Count(count_filter))
        },
        (ListState::Counting { query }, ListEvent::Counted(outcome)) => match outcome {
            Fetched::Found(count) => (
                ListState::Loading { total_items: count },
                ListAction::Load { query, total_items: count },
            ),
            Fetched::NotFound => (
                ListState::Loading { total_items: 0 },
                ListAction::Load { query, total_items: 0 },
            ),
            Fetched::Failed => fail(500, "Something went wrong", "Please try again later"),
        },
        (ListState::Loading { total_items }, ListEvent::Loaded { rows, total_pages }) => match rows {
            Fetched::Found(data) => (
                ListState::Done,
                ListAction::Respond(
                    ListAnswer::Page(ExperimentsPage { total_items, total_pages, data }),
                ),
            ),
            Fetched::NotFound => fail(
                404,
                "No results found for your query",
                "Update your filter parameters",
            ),
            Fetched::Failed => fail(500, "Something went wrong", "Please try again later"),
        },
        _ => vstd::pervasive::unreached(),
    }
}

/// Pages follow each other without gap or overlap: the next page starts where this one ends, and
/// the first page starts at the beginning.
pub proof fn law_pages_adjoin(filters: ListFilters, following: ListFilters)
    requires
        filters.count == following.count,
        page_number(following) == page_number(filters) + 1,
    ensures
        page_offset(following) == page_offset(filters) + page_limit(filters),
        page_number(filters) == 1 ==> page_offset(filters) == 0,
{
    let p = page_number(filters);
    let limit = page_limit(filters);
    assert(p * limit == (p - 1) * limit + limit) by (nonlinear_arith);
}

/// The number of pages that `total` experiments fill, with `limit` on each.
pub open spec fn page_count(total: int, limit: int) -> int {
    (total + limit - 1) / limit
}

/// The `limit` rows behind the first `offset` ones, as far as there are so many.
pub open spec fn window<R>(rows: Seq<R>, offset: int, limit: int) -> Seq<R> {
    let total = rows.len() as int;
    let from = if offset < total {
        offset
    } else {
        total
    };
    let to = if offset + limit < total {
        offset + limit
    } else {
        total
    };
    rows.subrange(from, to)
}

proof fn lemma_page_count(total: int, limit: int)
    requires
        limit >= 1,
        total >= 0,
    ensures
        page_count(total, limit) >= 0,
        total <= page_count(total, limit) * limit < total + limit,
{
    let n = page_count(total, limit);
    assert(total <= n * limit < total + limit && n >= 0) by (nonlinear_arith)
        requires
            limit >= 1,
            total >= 0,
            n == (total + limit - 1) / limit,
    ;
}

/// Every row is on exactly one page: with at least one row per page, row `k` is on page
/// `k / limit + 1`, which is no later than the last one, and on no other; and the page after the
/// last starts at or behind the end.
pub proof fn law_row_is_on_one_page(total: int, limit: int, k: int, page: int)
    requires
        limit >= 1,
        0 <= k < total,
    ensures
        1 <= k / limit + 1 <= page_count(total, limit),
        page_start(page, limit) <= k < page_start(page, limit) + limit <==> page == k / limit + 1,
        page_start(page_count(total, limit) + 1, limit) >= total,
{
    lemma_page_count(total, limit);
    let q = k / limit;
    let n = page_count(total, limit);
    assert(q * limit <= k < q * limit + limit && q >= 0) by (nonlinear_arith)
        requires
            limit >= 1,
            k >= 0,
            q == k / limit,
    ;
    assert(q < n) by (nonlinear_arith)
        requires
            limit >= 1,
            q * limit <= k,
            k < total,
            total <= n * limit,
    ;
    assert((page - 1) * limit <= k < (page - 1) * limit + limit ==> page - 1 == q)
        by (nonlinear_arith)
        requires
            limit >= 1,
            q * limit <= k < q * limit + limit,
    ;
}

proof fn lemma_first_pages<R>(rows: Seq<R>, limit: int, answers: Seq<Seq<R>>, n: int)
    requires
        limit >= 1,
        0 <= n <= answers.len(),
        answers.len() == page_count(rows.len() as int, limit),
        forall|i: int|
            0 <= i < answers.len() ==> #[trigger] answers[i] == window(
                rows,
                page_start(i + 1, limit),
                limit,
            ),
    ensures
        n < answers.len() ==> n * limit <= rows.len(),
        answers.take(n).flatten() == rows.take(if n * limit < rows.len() {
            n * limit
        } else {
            rows.len() as int
        }),
    decreases n,
{
    let total = rows.len() as int;
    lemma_page_count(total, limit);
    let count = page_count(total, limit);
    assert(n < count ==> n * limit <= total) by (nonlinear_arith)
        requires
            limit >= 1,
            count * limit < total + limit,
    ;
    assert(n * limit >= 0) by (nonlinear_arith)
        requires
            limit >= 1,
            n >= 0,
    ;
    if n == 0 {
        assert(answers.take(0).flatten() =~= rows.take(0));
    } else {
        lemma_first_pages(rows, limit, answers, n - 1);
        assert(n * limit == (n - 1) * limit + limit) by (nonlinear_arith);
        assert((n - 1) * limit >= 0) by (nonlinear_arith)
            requires
                limit >= 1,
                n >= 1,
        ;
        assert((n - 1) * limit <= total) by (nonlinear_arith)
            requires
                limit >= 1,
                n <= count,
                count * limit < total + limit,
        ;
        assert(answers.take(n) =~= answers.take(n - 1).push(answers[n - 1]));
        answers.take(n - 1).lemma_flatten_push(answers[n - 1]);
        let end = if n * limit < total {
            n * limit
        } else {
            total
        };
        assert(rows.take((n - 1) * limit) + answers[n - 1] =~= rows.take(end));
    }
}

proof fn lemma_pages_hold_all_rows<R>(
    rows: Seq<R>,
    limit: int,
    asked: Seq<ListFilters>,
    answers: Seq<Seq<R>>,
)
    requires
        limit >= 1,
        asked.len() == page_count(rows.len() as int, limit),
        answers.len() == asked.len(),
        forall|i: int|
            0 <= i < asked.len() ==> {
                &&& page_number(#[trigger] asked[i]) == i + 1
                &&& page_limit(asked[i]) == limit
                &&& answers[i] == window(rows, page_offset(asked[i]), page_limit(asked[i]))
            },
    ensures
        answers.flatten() == rows,
        forall|i: int| 0 <= i < answers.len() - 1 ==> (#[trigger] answers[i]).len() == limit,
{
    let total = rows.len() as int;
    let count = page_count(total, limit);
    lemma_page_count(total, limit);
    assert forall|i: int| 0 <= i < answers.len() implies #[trigger] answers[i] == window(
        rows,
        page_start(i + 1, limit),
        limit,
    ) by {
        assert(page_number(asked[i]) == i + 1);
    }
    lemma_first_pages(rows, limit, answers, count);
    assert(answers.take(count) =~= answers);
    assert(rows.take(total) =~= rows);
    assert forall|i: int| 0 <= i < answers.len() - 1 implies (#[trigger] answers[i]).len()
        == limit by {
        lemma_first_pages(rows, limit, answers, i + 1);
        assert((i + 1) * limit == i * limit + limit) by (nonlinear_arith);
        assert(i * limit >= 0) by (nonlinear_arith)
            requires
                limit >= 1,
                i >= 0,
        ;
    }
}

/// The page after the last is empty.
pub proof fn law_page_after_last_is_empty<R>(rows: Seq<R>, after: ListFilters)
    requires
        page_limit(after) >= 1,
        page_number(after) == page_count(rows.len() as int, page_limit(after)) + 1,
    ensures
        window(rows, page_offset(after), page_limit(after)).len() == 0,
{
    lemma_page_count(rows.len() as int, page_limit(after));
}

/// Without a period, the last 24 hours are asked for, up to the time at which the clock was read.
pub proof fn law_default_period(filter: ExperimentFilter, filters: ListFilters, now: Timestamp)
    requires
        is_filter_at(filter, filters, now),
        filters.from_date is None,
        filters.to_date is None,
        now.is_clock_time(),
        MIN_SECS + 86400 <= now.secs,
    ensures
        filter.to == now,
        filter.from.secs == now.secs - 24 * 3600,
        filter.from.nanos == now.nanos,
        filter.from.before(filter.to),
{
}

/// "Not modified" is answered exactly when there was a change and the last change came before the
/// time that the caller names; nothing is then counted or loaded.
pub proof fn law_not_modified<R>(
    state: ListState,
    event: ListEvent<R>,
    next: ListState,
    action: ListAction<R>,
)
    requires
        state.accepts(event),
        list_step(state, event, next, action),
    ensures
        action == ListAction::<R>::Respond(ListAnswer::NotModified) <==> (event matches ListEvent::Requested {
            latest,
            if_modified_since,
            ..
        } && (latest matches Ok(change) && is_unchanged(change, modified_since(if_modified_since)))),
        action == ListAction::<R>::Respond(ListAnswer::NotModified) ==> next is Done,
{
}

/// One step of a machine: what happened, where that led, and what to do next.
pub struct ListMove<R> {
    pub event: ListEvent<R>,
    pub next: ListState,
    pub action: ListAction<R>,
}

/// The state in front of step `i` of a run.
pub open spec fn state_before<R>(run: Seq<ListMove<R>>, i: int) -> ListState {
    if i == 0 {
        ListState::Start
    } else {
        run[i - 1].next
    }
}

/// The steps follow each other from the start.
pub open spec fn is_run<R>(run: Seq<ListMove<R>>) -> bool {
    forall|i: int|
        0 <= i < run.len() ==> {
            &&& #[trigger] state_before(run, i).accepts(run[i].event)
            &&& list_step(state_before(run, i), run[i].event, run[i].next, run[i].action)
        }
}

proof fn lemma_run_order<R>(run: Seq<ListMove<R>>, i: int)
    requires
        is_run(run),
        0 <= i < run.len(),
    ensures
        !(run[i].next is Start),
        run[i].next is Timing ==> i == 0,
        run[i].next is Counting ==> i == 1,
        run[i].next is Loading ==> i == 2,
    decreases i,
{
    assert(state_before(run, i).accepts(run[i].event));
    if i > 0 {
        lemma_run_order(run, i - 1);
    }
}

/// A page that is answered is the one that was asked for: it holds what was loaded for the
/// requested filters as of the time the clock was read, and the number of experiments that were
/// counted; and something had changed, as far as that was known.
pub proof fn law_page_as_requested<R>(run: Seq<ListMove<R>>, i: int, page: ExperimentsPage<R>)
    requires
        is_run(run),
        0 <= i < run.len(),
        run[i].action == ListAction::<R>::Respond(ListAnswer::Page(page)),
    ensures
        i == 3,
        ({
            &&& run[0].event matches ListEvent::Requested { latest, if_modified_since, filters }
            &&& latest matches Ok(change)
            &&& !is_unchanged(change, modified_since(if_modified_since))
            &&& run[1].event matches ListEvent::Timed { page_now, count_now }
            &&& run[1].action matches ListAction::Count(counted)
            &&& is_filter_at(counted, filters, count_now)
            &&& run[2].event matches ListEvent::Counted(outcome)
            &&& page.total_items == (match outcome {
                Fetched::Found(count) => count,
                _ => 0,
            })
            &&& !(outcome is Failed)
            &&& run[2].action matches ListAction::Load { query, .. }
            &&& is_filter_at(query.filter, filters, page_now)
            &&& query.order == SortOrder::NewestFirst
            &&& query.limit == page_limit(filters)
            &&& query.offset == page_offset(filters)
            &&& run[3].event == (ListEvent::Loaded {
                rows: Fetched::Found(page.data),
                total_pages: page.total_pages,
            })
        }),
{
    assert(state_before(run, i).accepts(run[i].event));
    assert(state_before(run, i) is Loading);
    lemma_run_order(run, i - 1);
    assert(state_before(run, 2).accepts(run[2].event));
    assert(state_before(run, 1).accepts(run[1].event));
    assert(state_before(run, 0).accepts(run[0].event));
}

/// The run asks for the page of `filters` and is answered `page`, out of `rows`: these are counted,
/// the rows that are loaded are those of the window asked for, and the number of pages is that of
/// all rows.
pub open spec fn answers_from<R>(
    run: Seq<ListMove<R>>,
    rows: Seq<R>,
    filters: ListFilters,
    page: ExperimentsPage<R>,
) -> bool {
    &&& is_run(run)
    &&& run.len() == 4
    &&& run[0].event matches ListEvent::Requested { filters: f, .. }
    &&& f == filters
    &&& run[2].event matches ListEvent::Counted(Fetched::Found(count))
    &&& count == rows.len()
    &&& run[2].action matches ListAction::Load { query, .. }
    &&& run[3].event matches ListEvent::Loaded { rows: Fetched::Found(data), total_pages }
    &&& data@ == window(rows, query.offset as int, query.limit as int)
    &&& total_pages == page_count(rows.len() as int, query.limit as int)
    &&& run[3].action == ListAction::<R>::Respond(ListAnswer::Page(page))
}

/// The rows are sorted with the newest first, and no two were modified at the same time.
pub open spec fn newest_first<R>(rows: Seq<R>, modified: spec_fn(R) -> Timestamp) -> bool {
    forall|i: int, j: int|
        0 <= i < j < rows.len() ==> modified(#[trigger] rows[j]).before(
            modified(#[trigger] rows[i]),
        )
}

/// Whoever asks for every page, from the first to the last, gets every row exactly once: the rows
/// of the answers, one after the other, are all rows, as many as each answer says in total, newest
/// first and without repetition. Every page but the last is full.
pub proof fn law_listing_covers_all_rows<R>(
    runs: Seq<Seq<ListMove<R>>>,
    rows: Seq<R>,
    limit: int,
    asked: Seq<ListFilters>,
    pages: Seq<ExperimentsPage<R>>,
    modified: spec_fn(R) -> Timestamp,
)
    requires
        limit >= 1,
        newest_first(rows, modified),
        asked.len() == page_count(rows.len() as int, limit),
        runs.len() == asked.len(),
        pages.len() == asked.len(),
        forall|i: int|
            0 <= i < asked.len() ==> {
                &&& page_number(#[trigger] asked[i]) == i + 1
                &&& page_limit(asked[i]) == limit
                &&& answers_from(runs[i], rows, asked[i], pages[i])
            },
    ensures
        pages.map_values(|p: ExperimentsPage<R>| p.data@).flatten() == rows,
        newest_first(pages.map_values(|p: ExperimentsPage<R>| p.data@).flatten(), modified),
        pages.map_values(|p: ExperimentsPage<R>| p.data@).flatten().no_duplicates(),
        forall|i: int|
            0 <= i < pages.len() ==> {
                &&& (#[trigger] pages[i]).total_items == rows.len()
                &&& pages[i].total_pages == pages.len()
                &&& i < pages.len() - 1 ==> pages[i].data@.len() == limit
            },
{
    let answers = pages.map_values(|p: ExperimentsPage<R>| p.data@);
    assert forall|i: int| 0 <= i < asked.len() implies {
        &&& page_number(#[trigger] asked[i]) == i + 1
        &&& page_limit(asked[i]) == limit
        &&& answers[i] == window(rows, page_offset(asked[i]), page_limit(asked[i]))
        &&& pages[i].total_items == rows.len()
        &&& pages[i].total_pages == pages.len()
    } by {
        assert(answers_from(runs[i], rows, asked[i], pages[i]));
        law_page_as_requested(runs[i], 3, pages[i]);
    }
    lemma_pages_hold_all_rows(rows, limit, asked, answers);
    assert forall|i: int| 0 <= i < pages.len() implies {
        &&& (#[trigger] pages[i]).total_items == rows.len()
        &&& pages[i].total_pages == pages.len()
        &&& i < pages.len() - 1 ==> pages[i].data@.len() == limit
    } by {
        assert(page_number(asked[i]) == i + 1);
        assert(answers[i] == pages[i].data@);
    }
    assert(rows.no_duplicates()) by {
        assert forall|i: int, j: int| 0 <= i < rows.len() && 0 <= j < rows.len() && i != j implies
            rows[i] != rows[j] by {
            if i < j {
                assert(modified(rows[j]).before(modified(rows[i])));
            } else {
                assert(modified(rows[i]).before(modified(rows[j])));
            }
        }
    }
}

/// A machine that has not ended waits for the outcome of the action that it asked for, and a
/// machine that has ended takes no further event.
pub proof fn law_list_ends<R>(
    state: ListState,
    event: ListEvent<R>,
    next: ListState,
    action: ListAction<R>,
)
    requires
        state.accepts(event),
        list_step(state, event, next, action),
    ensures
        next is Done <==> action is Respond,
        next is Timing <==> action is ReadClock,
        next is Counting <==> action is Count,
        next is Loading <==> action is Load,
        forall|e: ListEvent<R>| !(#[trigger] ListState::Done.accepts(e)),
{
}

/// The answer to a request for one experiment.
pub fn get_experiment<R>(outcome: Fetched<R>) -> (r: Result<R, HttpError>)
    ensures
        match outcome {
            Fetched::Found(experiment) => r == Ok::<R, HttpError>(experiment),
            Fetched::NotFound => r matches Err(e) && e.says(404, "Experiment not found"@),
            Fetched::Failed => r matches Err(e) && e.says(500, ""@),
        },
{
    match outcome {
        Fetched::Found(experiment) => Ok(experiment),
        Fetched::NotFound => Err(HttpError::not_found("Experiment not found")),
        Fetched::Failed => Err(HttpError::internal("")),
    }
}

/// What a filter asks for is what was requested: a named start is the start of the period and a named
/// end its end, each whether or not the other is named; where none is named, the period starts a day
/// before the time the clock shows, or ends at that time. The named statuses are the ones that are
/// asked for, all of them, and without any named there is no restriction.
pub open spec fn asks_as_requested(
    filter: ExperimentFilter,
    status: Option<Vec<ExperimentStatusType>>,
    from_date: Option<Timestamp>,
    to_date: Option<Timestamp>,
    now: Timestamp,
) -> bool {
    &&& from_date is Some ==> filter.from == from_date->0
    &&& from_date is None ==> filter.from.secs == now.secs - 86400 && filter.from.nanos == now.nanos
    &&& to_date is Some ==> filter.to == to_date->0
    &&& to_date is None ==> filter.to == now
    &&& filter.status is Some <==> status is Some
    &&& status is Some ==> filter.status->0@ == status->0@
}

/// Both the page and the count ask for what was requested, each as of its own reading of the clock;
/// the page is sorted with the newest first, holds as many as requested, or else ten, and leaves out
/// that many for each page in front of the requested one, or else of the first.
pub proof fn law_named_dates_are_used<R>(
    status: Option<Vec<ExperimentStatusType>>,
    from_date: Option<Timestamp>,
    to_date: Option<Timestamp>,
    page: Option<i64>,
    count: Option<i64>,
    page_now: Timestamp,
    count_now: Timestamp,
    next: ListState,
    action: ListAction<R>,
)
    requires
        (ListState::Timing {
            filters: ListFilters { status, from_date, to_date, page, count },
        }).accepts(ListEvent::<R>::Timed { page_now, count_now }),
        list_step(
            ListState::Timing { filters: ListFilters { status, from_date, to_date, page, count } },
            ListEvent::<R>::Timed { page_now, count_now },
            next,
            action,
        ),
    ensures
        ({
            &&& next matches ListState::Counting { query }
            &&& asks_as_requested(query.filter, status, from_date, to_date, page_now)
            &&& query.order == SortOrder::NewestFirst
            &&& count is Some ==> query.limit == count->0
            &&& count is None ==> query.limit == 10
            &&& page is Some ==> query.offset == (page->0 - 1) * query.limit
            &&& page is None ==> query.offset == 0
            &&& action matches ListAction::Count(filter)
            &&& asks_as_requested(filter, status, from_date, to_date, count_now)
        }),
{
    let filters = ListFilters { status, from_date, to_date, page, count };
    let limit = page_limit(filters);
    assert((1 - 1) * limit == 0) by (nonlinear_arith);
    assert(page is Some ==> page_offset(filters) == (page->0 - 1) * limit);
    assert(page is None ==> page_offset(filters) == (1 - 1) * limit);
}

/// A list is answered with "not modified" exactly when a last change is known, the header says a time
/// (visible text that is one by RFC 2822), and the change came before it, by the second or, within
/// the same second, by the nanosecond. In every other case where the lookup succeeded the request
/// goes on with its filters unchanged.
pub proof fn law_only_earlier_changes_are_skipped<R>(
    latest: Option<Timestamp>,
    header: Option<Vec<u8>>,
    filters: ListFilters,
    next: ListState,
    action: ListAction<R>,
)
    requires
        list_step(
            ListState::Start,
            ListEvent::<R>::Requested { latest: Ok(latest), if_modified_since: header, filters },
            next,
            action,
        ),
    ensures
        ({
            let says_time = header is Some && is_visible(header->0@) && rfc2822_instant(
                ascii_text(header->0@),
            ) is Some;
            let (secs, nanos) = rfc2822_instant(ascii_text(header->0@))->0;
            let skipped = latest is Some && says_time && (latest->0.secs < secs || (
            latest->0.secs == secs && latest->0.nanos < nanos));
            &&& skipped ==> next is Done && action == ListAction::<R>::Respond(
                ListAnswer::NotModified,
            )
            &&& !skipped ==> next == (ListState::Timing { filters }) && action is ReadClock
        }),
{
}

/// When the last change cannot be looked up, the request fails.
pub proof fn law_lookup_must_succeed<R>(
    header: Option<Vec<u8>>,
    filters: ListFilters,
    next: ListState,
    action: ListAction<R>,
)
    requires
        list_step(
            ListState::Start,
            ListEvent::<R>::Requested { latest: Err(()), if_modified_since: header, filters },
            next,
            action,
        ),
    ensures
        fails(next, action, 500, "Something went wrong"@, "Please try again later"@),
{
}

/// After counting, exactly the page that was prepared is loaded, with the count as the total, which
/// is zero when nothing was counted; a failure to count ends the request.
pub proof fn law_prepared_page_is_loaded<R>(
    query: PageQuery,
    outcome: Fetched<i64>,
    next: ListState,
    action: ListAction<R>,
)
    requires
        list_step(ListState::Counting { query }, ListEvent::<R>::Counted(outcome), next, action),
    ensures
        outcome is Failed ==> fails(
            next,
            action,
            500,
            "Something went wrong"@,
            "Please try again later"@,
        ),
        !(outcome is Failed) ==> ({
            let total = if outcome is Found {
                outcome->Found_0
            } else {
                0
            };
            &&& next == (ListState::Loading { total_items: total })
            &&& action matches ListAction::Load { query: loaded, total_items }
            &&& loaded == query
            &&& total_items == total
        }),
{
}

/// All rows that were loaded are answered, in their order, with the total that was counted.
pub proof fn law_loaded_rows_are_answered<R>(
    total_items: i64,
    total_pages: i64,
    rows: Fetched<Vec<R>>,
    next: ListState,
    action: ListAction<R>,
)
    requires
        list_step(
            ListState::Loading { total_items },
            ListEvent::Loaded { rows, total_pages },
            next,
            action,
        ),
    ensures
        next is Done,
        rows matches Fetched::Found(data) ==> ({
            &&& action matches ListAction::Respond(ListAnswer::Page(page))
            &&& page.data@ == data@
            &&& page.total_items == total_items
            &&& page.total_pages == total_pages
        }),
        rows is NotFound ==> fails(
            next,
            action,
            404,
            "No results found for your query"@,
            "Update your filter parameters"@,
        ),
        rows is Failed ==> fails(
            next,
            action,
            500,
            "Something went wrong"@,
            "Please try again later"@,
        ),
{
}

/// The machine takes every request and every outcome of the action that it asked for; the clock has
/// to show a time a day after the start of the calendar or later, and the page has to be one that can
/// be counted out in 64 bits.
pub proof fn law_list_takes_outcomes<R>(
    requested: ListEvent<R>,
    filters: ListFilters,
    page_now: Timestamp,
    count_now: Timestamp,
    query: PageQuery,
    counted: Fetched<i64>,
    total_items: i64,
    loaded: ListEvent<R>,
)
    requires
        requested is Requested,
        loaded is Loaded,
        filters.page is Some ==> filters.page->0 > i64::MIN,
        i64::MIN <= (if filters.page is Some {
            filters.page->0 - 1
        } else {
            0
        }) * (if filters.count is Some {
            filters.count->0 as int
        } else {
            10
        }) <= i64::MAX,
        MIN_SECS + 86400 <= page_now.secs <= MAX_SECS,
        page_now.nanos < 1_000_000_000,
        MIN_SECS + 86400 <= count_now.secs <= MAX_SECS,
        count_now.nanos < 1_000_000_000,
    ensures
        ListState::Start.accepts(requested),
        (ListState::Timing { filters }).accepts(ListEvent::<R>::Timed { page_now, count_now }),
        (ListState::Counting { query }).accepts(ListEvent::<R>::Counted(counted)),
        (ListState::Loading { total_items }).accepts(loaded),
{
}

/// A failure says one thing: its status and its texts are those of the answer.
pub proof fn law_failure_says_one_thing<R>(
    next: ListState,
    action: ListAction<R>,
    status: u16,
    message: Seq<char>,
    possible_fix: Seq<char>,
    other_status: u16,
    other_message: Seq<char>,
    other_fix: Seq<char>,
)
    requires
        fails(next, action, status, message, possible_fix),
    ensures
        next is Done,
        action is Respond,
        fails(next, action, other_status, other_message, other_fix) ==> status == other_status
            && message == other_message && possible_fix == other_fix,
{
}

} // verus!
