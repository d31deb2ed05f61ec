//! Checking a value's type with the service of a tenant.
//!
//! The decisions are steps of a machine: the caller performs each action and hands back what
//! came of it as the next event.
use vstd::prelude::*;

use crate::error::HttpError;
use crate::json::{Json, JsonMap, JsonView};
use crate::text::{decimal, same_text};

verus! {

/// What the type checking service answers.
#[derive(Clone, Copy, Debug)]
pub struct TypeValidationResponse {
    pub result: bool,
}

/// The table from strings to strings that a JSON text says; nothing if it says no such table.
pub uninterp spec fn json_string_table(text: Seq<char>) -> Option<Map<Seq<char>, Seq<char>>>;

/// The reason phrase with which a status code is displayed.
pub uninterp spec fn status_reason(code: u16) -> Seq<char>;

/// The table that results from storing the entries one after the other.
pub open spec fn table_of(entries: Seq<(String, String)>) -> Map<Seq<char>, Seq<char>>
    decreases entries.len(),
{
    if entries.len() == 0 {
        Map::empty()
    } else {
        table_of(entries.drop_last()).insert(entries.last().0@, entries.last().1@)
    }
}

/// `serde_json::from_str` into a `HashMap<String, String>`: the entries of the table, in no
/// particular order and each key once.
#[verifier::external_body]
fn parse_string_table(text: &str) -> (r: Option<Vec<(String, String)>>)
    ensures
        match r {
            Some(entries) => {
                &&& json_string_table(text@) == Some(table_of(entries@))
                &&& forall|i: int, j: int|
                    0 <= i < j < entries@.len() ==> entries@[i].0@ != entries@[j].0@
            },
            None => json_string_table(text@) is None,
        },
{
    match serde_json::from_str::<std::collections::HashMap<String, String>>(text) {
        Ok(table) => Some(table.into_iter().collect()),
        Err(_) => None,
    }
}

/// `StatusCode`'s display: the code, a space, and the reason phrase.
#[verifier::external_body]
fn status_text(code: u16) -> (r: String)
    requires
        100 <= code <= 999,
    ensures
        r@ == decimal(code as nat) + " "@ + status_reason(code),
{
    reqwest::StatusCode::from_u16(code).unwrap().to_string()
}

proof fn lemma_table_at(entries: Seq<(String, String)>, at: int)
    requires
        0 <= at < entries.len(),
        forall|i: int, j: int| 0 <= i < j < entries.len() ==> entries[i].0@ != entries[j].0@,
    ensures
        table_of(entries).dom().contains(entries[at].0@),
        table_of(entries)[entries[at].0@] == entries[at].1@,
    decreases entries.len(),
{
    if at < entries.len() - 1 {
        let front = entries.drop_last();
        assert forall|i: int, j: int| 0 <= i < j < front.len() implies front[i].0@
            != front[j].0@ by {
            assert(entries[i].0@ != entries[j].0@);
        }
        lemma_table_at(front, at);
        assert(entries[at].0@ != entries[entries.len() - 1].0@);
    }
}

proof fn lemma_table_without(entries: Seq<(String, String)>, key: Seq<char>)
    requires
        forall|i: int| 0 <= i < entries.len() ==> (#[trigger] entries[i]).0@ != key,
    ensures
        !table_of(entries).dom().contains(key),
    decreases entries.len(),
{
    if entries.len() > 0 {
        let front = entries.drop_last();
        assert forall|i: int| 0 <= i < front.len() implies (#[trigger] front[i]).0@ != key by {
            assert(front[i] == entries[i]);
        }
        lemma_table_without(front, key);
        assert(entries[entries.len() - 1].0@ != key);
    }
}

/// The value of `key` in the table that a JSON text says.
pub open spec fn table_entry(text: Seq<char>, key: Seq<char>) -> Option<Seq<char>> {
    match json_string_table(text) {
        Some(table) => if table.dom().contains(key) {
            Some(table[key])
        } else {
            None
        },
        None => None,
    }
}

/// The host of a tenant, in the entries of a table of hosts.
pub fn host_of(entries: &Vec<(String, String)>, tenant: &str) -> (r: Option<String>)
    requires
        forall|i: int, j: int| 0 <= i < j < entries@.len() ==> entries@[i].0@ != entries@[j].0@,
    ensures
        match r {
            Some(host) => {
                &&& table_of(entries@).dom().contains(tenant@)
                &&& table_of(entries@)[tenant@] == host@
            },
            None => !table_of(entries@).dom().contains(tenant@),
        },
{
    for i in 0..entries.len()
        invariant
            forall|i: int, j: int|
                0 <= i < j < entries@.len() ==> entries@[i].0@ != entries@[j].0@,
            forall|j: int| 0 <= j < i ==> (#[trigger] entries@[j]).0@ != tenant@,
    {
        if same_text(entries[i].0.as_str(), tenant) {
            proof {
                lemma_table_at(entries@, i as int);
            }
            return Some(entries[i].1.clone());
        }
    }
    proof {
        lemma_table_without(entries@, tenant@);
    }
    None
}

/// Looks up the host of a tenant in a JSON text; `Err` if the text says no table.
fn find_host(host_table: &str, tenant: &str) -> (r: Result<Option<String>, ()>)
    ensures
        match json_string_table(host_table@) {
            None => r is Err,
            Some(_) => match table_entry(host_table@, tenant@) {
                Some(host) => r matches Ok(Some(found)) && found@ == host,
                None => r matches Ok(None),
            },
        },
{
    match parse_string_table(host_table) {
        Some(entries) => Ok(host_of(&entries, tenant)),
        None => Err(()),
    }
}

/// Where a check stands.
pub enum CheckState {
    /// Nothing was done yet.
    Start,
    /// The service is being called.
    Calling,
    /// The service's answer is being decoded.
    Decoding,
    /// The check has ended.
    Done,
}

/// What happened outside.
pub enum CheckEvent {
    /// A value is to be checked for a tenant. `host_table` is the configured JSON text that maps
    /// tenants to hosts.
    Begin { host_table: String, tenant: String, key: String, value: Json },
    /// The call was answered with a status, or could not be made.
    Called(Result<u16, ()>),
    /// The answer was decoded, or could not be, for the given reason.
    Decoded(Result<TypeValidationResponse, String>),
}

/// What to do next.
pub enum CheckAction {
    /// Call the service.
    Post { url: String, payload: Json },
    /// Decode the answer.
    Decode,
    /// Answer with the outcome of the check.
    Finish(Result<bool, HttpError>),
    /// Give up: the configured table of hosts cannot be read.
    BadHostTable,
}

impl CheckState {
    /// The event belongs to the state.
    pub open spec fn accepts(self, event: CheckEvent) -> bool {
        match (self, event) {
            (CheckState::Start, CheckEvent::Begin { .. }) => true,
            (CheckState::Calling, CheckEvent::Called(outcome)) => outcome matches Ok(status)
                ==> 100 <= status <= 999,
            (CheckState::Decoding, CheckEvent::Decoded(_)) => true,
            _ => false,
        }
    }
}

/// The step that the machine takes in a state on an event.
pub open spec fn check_step(
    state: CheckState,
    event: CheckEvent,
    next: CheckState,
    action: CheckAction,
) -> bool {
    match event {
        CheckEvent::Begin { host_table, tenant, key, value } => {
            if json_string_table(host_table@) is None {
                next is Done && action is BadHostTable
            } else {
                match table_entry(host_table@, tenant@) {
                    // Tenants without a host are not checked.
                    None => {
                        &&& next is Done
                        &&& action matches CheckAction::Finish(Ok(valid))
                        &&& valid
                    },
                    Some(host) => {
                        &&& next is Calling
                        &&& action matches CheckAction::Post { url, payload }
                        &&& url@ == host + "/internal/typeCheck"@
                        &&& payload@ == JsonView::Object(
                            seq![("key"@, JsonView::Str(key@)), ("value"@, value@)],
                        )
                    },
                }
            }
        },
        CheckEvent::Called(Err(_)) => {
            &&& next is Done
            &&& action matches CheckAction::Finish(Err(e))
            &&& e.says_message(500, "Failed to call nammayatri backend"@)
        },
        CheckEvent::Called(Ok(status)) => {
            if status == 200 {
                next is Decoding && action is Decode
            } else {
                &&& next is Done
                &&& action matches CheckAction::Finish(Err(e))
                &&& e.says_message(
                    500,
                    "Failed to decode response from nammayatri backend, errorCode: "@ + (decimal(
                        status as nat,
                    ) + " "@ + status_reason(status)),
                )
            }
        },
        CheckEvent::Decoded(Ok(response)) => {
            &&& next is Done
            &&& action == CheckAction::Finish(Ok(response.result))
        },
        CheckEvent::Decoded(Err(reason)) => {
            &&& next is Done
            &&& action matches CheckAction::Finish(Err(e))
            &&& e.says_message(
                500,
                "Failed to decode result from nammayatri backend "@ + reason@,
            )
        },
    }
}

/// Takes the next step of a type check.
pub fn validate_inputs(state: CheckState, event: CheckEvent) -> (r: (CheckState, CheckAction))
    requires
        state.accepts(event),
    ensures
        check_step(state, event, r.0, r.1),
{
    match event {
        CheckEvent::Begin { host_table, tenant, key, value } => {
            match find_host(host_table.as_str(), tenant.as_str()) {
                Err(_) => (CheckState::Done, CheckAction::BadHostTable),
                Ok(None) => (CheckState::Done, CheckAction::Finish(Ok(true))),
                Ok(Some(host)) => {
                    let mut url: String = host;
                    url.append("/internal/typeCheck");
                    let mut members: JsonMap = JsonMap::new();
                    members.push("key".to_owned(), Json::Str(key));
                    members.push("value".to_owned(), value);
                    assert(members@ =~= seq![("key"@, JsonView::Str(key@)), ("value"@, value@)]);
                    let payload = Json::Object(members);
                    (CheckState::Calling, CheckAction::Post { url, payload })
                },
            }
        },
        CheckEvent::Called(Err(_)) => {
            let e = HttpError::internal_message("Failed to call nammayatri backend".to_owned());
            (CheckState::Done, CheckAction::Finish(Err(e)))
        },
        CheckEvent::Called(Ok(status)) => {
            if status == 200 {
                (CheckState::Decoding, CheckAction::Decode)
            } else {
                let mut text: String =
                    "Failed to decode response from nammayatri backend, errorCode: ".to_owned();
                text.append(status_text(status).as_str());
                (CheckState::Done, CheckAction::Finish(Err(HttpError::internal_message(text))))
            }
        },
        CheckEvent::Decoded(Ok(response)) => (
            CheckState::Done,
            CheckAction::Finish(Ok(response.result)),
        ),
        CheckEvent::Decoded(Err(reason)) => {
            let mut text: String = "Failed to decode result from nammayatri backend ".to_owned();
            text.append(reason.as_str());
            (CheckState::Done, CheckAction::Finish(Err(HttpError::internal_message(text))))
        },
    }
}

/// One step of a machine: what happened, where that led, and what to do next.
pub struct CheckMove {
    pub event: CheckEvent,
    pub next: CheckState,
    pub action: CheckAction,
}

/// The state in front of step `i` of a run.
pub open spec fn state_before(run: Seq<CheckMove>, i: int) -> CheckState {
    if i == 0 {
        CheckState::Start
    } else {
        run[i - 1].next
    }
}

/// The steps follow each other from the start.
pub open spec fn is_run(run: Seq<CheckMove>) -> bool {
    forall|i: int|
        0 <= i < run.len() ==> {
            &&& #[trigger] state_before(run, i).accepts(run[i].event)
            &&& check_step(state_before(run, i), run[i].event, run[i].next, run[i].action)
        }
}

proof fn lemma_run_order(run: Seq<CheckMove>, i: int)
    requires
        is_run(run),
        0 <= i < run.len(),
    ensures
        !(run[i].next is Start),
        run[i].next is Calling ==> i == 0,
        run[i].next is Decoding ==> i == 1,
    decreases i,
{
    assert(state_before(run, i).accepts(run[i].event));
    if i > 0 {
        lemma_run_order(run, i - 1);
    }
}

/// A check passes only if the tenant has no host, or if the service at the tenant's host was asked
/// about the key and the value, answered 200, and said that the value is valid.
pub proof fn law_pass_needs_consent(run: Seq<CheckMove>, i: int)
    requires
        is_run(run),
        0 <= i < run.len(),
        run[i].action == CheckAction::Finish(Ok(true)),
    ensures
        ({
            &&& run[0].event matches CheckEvent::Begin { host_table, tenant, key, value }
            &&& json_string_table(host_table@) is Some
            &&& match table_entry(host_table@, tenant@) {
                None => i == 0,
                Some(host) => {
                    &&& i == 2
                    &&& run[0].action matches CheckAction::Post { url, payload }
                    &&& url@ == host + "/internal/typeCheck"@
                    &&& payload@ == JsonView::Object(
                        seq![("key"@, JsonView::Str(key@)), ("value"@, value@)],
                    )
                    &&& run[1].event == CheckEvent::Called(Ok(200))
                    &&& run[2].event matches CheckEvent::Decoded(Ok(response))
                    &&& response.result
                },
            }
        }),
{
    assert(state_before(run, 0).accepts(run[0].event));
    assert(state_before(run, i).accepts(run[i].event));
    if i > 0 {
        lemma_run_order(run, i - 1);
        assert(state_before(run, 1).accepts(run[1].event));
    }
}

/// A machine that has not ended waits for the outcome of the action that it asked for, and a
/// machine that has ended takes no further event.
pub proof fn law_check_ends(
    state: CheckState,
    event: CheckEvent,
    next: CheckState,
    action: CheckAction,
)
    requires
        state.accepts(event),
        check_step(state, event, next, action),
    ensures
        next is Done <==> (action is Finish || action is BadHostTable),
        next is Calling <==> action is Post,
        next is Decoding <==> action is Decode,
        forall|e: CheckEvent| !(#[trigger] CheckState::Done.accepts(e)),
{
}

/// A value is checked exactly for the tenants that the table of hosts names: at the tenant's own
/// host, about that key and that value. Any other tenant's value passes unchecked, and nothing is
/// done with a table that cannot be read.
pub proof fn law_named_tenants_are_checked(
    host_table: String,
    tenant: String,
    key: String,
    value: Json,
    next: CheckState,
    action: CheckAction,
)
    requires
        check_step(
            CheckState::Start,
            CheckEvent::Begin { host_table, tenant, key, value },
            next,
            action,
        ),
    ensures
        json_string_table(host_table@) is None ==> next is Done && action is BadHostTable,
        json_string_table(host_table@) matches Some(table) ==> if table.dom().contains(tenant@) {
            &&& next is Calling
            &&& action matches CheckAction::Post { url, payload }
            &&& url@ == table[tenant@] + "/internal/typeCheck"@
            &&& payload@ == JsonView::Object(
                seq![("key"@, JsonView::Str(key@)), ("value"@, value@)],
            )
        } else {
            next is Done && action == CheckAction::Finish(Ok(true))
        },
{
}

/// Only the answer 200 is decoded; no call and any other answer end the check with an error.
pub proof fn law_answers_are_told_apart(
    outcome: Result<u16, ()>,
    next: CheckState,
    action: CheckAction,
)
    requires
        check_step(CheckState::Calling, CheckEvent::Called(outcome), next, action),
    ensures
        outcome == Ok::<u16, ()>(200) <==> action is Decode,
        outcome == Ok::<u16, ()>(200) <==> next is Decoding,
        outcome != Ok::<u16, ()>(200) ==> next is Done,
        outcome is Err ==> (action matches CheckAction::Finish(Err(e)) && e.says_message(
            500,
            "Failed to call nammayatri backend"@,
        )),
        outcome matches Ok(status) ==> status != 200 ==> (action matches CheckAction::Finish(Err(e))
            && e.says_message(
            500,
            "Failed to decode response from nammayatri backend, errorCode: "@ + (decimal(
                status as nat,
            ) + " "@ + status_reason(status)),
        )),
{
}

/// What the service says is the outcome of the check; an answer that cannot be decoded ends it with
/// the reason.
pub proof fn law_service_decides(
    decoded: Result<TypeValidationResponse, String>,
    next: CheckState,
    action: CheckAction,
)
    requires
        check_step(CheckState::Decoding, CheckEvent::Decoded(decoded), next, action),
    ensures
        next is Done,
        decoded matches Ok(response) ==> action == CheckAction::Finish(
            Ok::<bool, HttpError>(response.result),
        ),
        decoded matches Err(reason) ==> (action matches CheckAction::Finish(Err(e))
            && e.says_message(
            500,
            "Failed to decode result from nammayatri backend "@ + reason@,
        )),
{
}

/// A table has exactly the keys of its entries, and where these are all different each has the value
/// of its entry.
pub proof fn law_table_has_its_entries(entries: Seq<(String, String)>, at: int, key: Seq<char>)
    requires
        forall|i: int, j: int| 0 <= i < j < entries.len() ==> entries[i].0@ != entries[j].0@,
    ensures
        0 <= at < entries.len() ==> table_of(entries).dom().contains(entries[at].0@)
            && table_of(entries)[entries[at].0@] == entries[at].1@,
        (forall|i: int| 0 <= i < entries.len() ==> (#[trigger] entries[i]).0@ != key)
            ==> !table_of(entries).dom().contains(key),
{
    if 0 <= at < entries.len() {
        lemma_table_at(entries, at);
    }
    if forall|i: int| 0 <= i < entries.len() ==> (#[trigger] entries[i]).0@ != key {
        lemma_table_without(entries, key);
    }
}

/// The machine takes every outcome of the action that it asked for.
pub proof fn law_check_takes_outcomes(begin: CheckEvent, status: u16, outcome: CheckEvent)
    requires
        begin is Begin,
        100 <= status <= 999,
        outcome is Decoded,
    ensures
        CheckState::Start.accepts(begin),
        CheckState::Calling.accepts(CheckEvent::Called(Ok(status))),
        CheckState::Calling.accepts(CheckEvent::Called(Err(()))),
        CheckState::Decoding.accepts(outcome),
{
}

} // verus!
