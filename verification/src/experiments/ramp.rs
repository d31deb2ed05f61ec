//! Changing the share of traffic that an experiment gets.
use vstd::prelude::*;

use crate::error::HttpError;
use crate::text::{decimal, i64_to_string, signed_decimal, u64_to_string};

use super::types::{ExperimentStatusType, Fetched, Variant};

verus! {

/// What ramping reads of a stored experiment. `variants` is nothing if the stored variants cannot
/// be read.
pub struct RampedExperiment {
    pub status: ExperimentStatusType,
    pub traffic_percentage: i32,
    pub variants: Option<Vec<Variant>>,
}

/// The percentage that each of `count` variants can get at most. Counts are taken modulo 256.
pub open spec fn traffic_limit(count: int) -> int {
    100int / (count % 256)
}

/// The status and the text with which a request is refused. Percentages are compared modulo 256.
pub open spec fn ramp_refusal(experiment: RampedExperiment, requested: u64) -> Option<
    (u16, Seq<char>),
> {
    match experiment.variants {
        None => Some((500, ""@)),
        Some(variants) => {
            let limit = traffic_limit(variants@.len() as int);
            if experiment.status == ExperimentStatusType::CONCLUDED {
                Some((400, "Experiment is already concluded"@))
            } else if requested % 256 > limit {
                Some((400, "The traffic_percentage cannot exceed "@ + decimal(limit as nat)))
            } else if requested % 256 == (experiment.traffic_percentage as int) % 256 {
                Some((400, "The traffic_percentage is same as provided"@))
            } else {
                None
            }
        },
    }
}

/// The requested percentage as it is stored: its lowest 32 bits as a signed number.
pub open spec fn stored_percentage(requested: u64) -> int {
    let low = requested as int % 0x1_0000_0000;
    if low < 0x8000_0000 {
        low
    } else {
        low - 0x1_0000_0000
    }
}

/// Refuses a request to change the share of traffic, or gives the percentage to store.
pub fn check_ramp(experiment: RampedExperiment, requested: u64) -> (r: Result<i32, HttpError>)
    requires
        experiment.variants matches Some(variants) ==> variants@.len() % 256 != 0,
    ensures
        match ramp_refusal(experiment, requested) {
            Some((status, text)) => r matches Err(e) && e.says(status, text),
            None => r matches Ok(percentage) && percentage == stored_percentage(requested),
        },
{
    let variants: Vec<Variant> = match experiment.variants {
        Some(variants) => variants,
        None => {
            return Err(HttpError::internal(""));
        },
    };
    let count: usize = variants.len();
    let traffic: i32 = experiment.traffic_percentage;
    assert(count as u8 == count % 256) by (bit_vector);
    assert(requested as u8 == requested % 256) by (bit_vector);
    assert(traffic >= 0 ==> traffic as u8 == traffic % 256) by (bit_vector);
    assert(traffic < 0 ==> traffic as u8 == (traffic + 0x1_0000_0000) % 256) by (bit_vector);
    let old_traffic_percentage: u8 = #[verifier::truncate] (traffic as u8);
    let new_traffic_percentage: u8 = #[verifier::truncate] (requested as u8);
    let variants_count: u8 = #[verifier::truncate] (count as u8);
    let max: u8 = 100 / variants_count;
    if experiment.status == ExperimentStatusType::CONCLUDED {
        return Err(HttpError::bad_request("Experiment is already concluded"));
    } else if new_traffic_percentage > max {
        let mut text: String = "The traffic_percentage cannot exceed ".to_owned();
        text.append(u64_to_string(max as u64).as_str());
        return Err(HttpError::bad_request(text.as_str()));
    } else if new_traffic_percentage == old_traffic_percentage {
        return Err(HttpError::bad_request("The traffic_percentage is same as provided"));
    }
    assert(requested % 0x1_0000_0000 < 0x8000_0000 ==> requested as i32 == requested
        % 0x1_0000_0000) by (bit_vector);
    assert(requested % 0x1_0000_0000 >= 0x8000_0000 ==> requested as i32 == requested
        % 0x1_0000_0000 - 0x1_0000_0000) by (bit_vector);
    Ok(#[verifier::truncate] (requested as i32))
}

/// Where changing the share of traffic stands.
pub enum RampState {
    /// The experiment is being fetched.
    Fetching,
    /// The new share of the experiment with this id is being stored.
    Storing { id: i64 },
    /// The request was answered.
    Done,
}

/// What happened outside.
pub enum RampEvent {
    /// The query for the experiment with this id ended.
    Fetched {
        id: i64,
        experiment: Fetched<RampedExperiment>,
        requested: u64,
        requested_by: String,
    },
    /// So many experiments were changed, or the change failed.
    Stored(Result<usize, ()>),
}

/// What to do next.
pub enum RampAction {
    /// Store these in the experiment with this id, with the time as that of its last modification,
    /// and leave everything else of it, and all other experiments, as they are.
    Store {
        id: i64,
        traffic_percentage: i32,
        status: ExperimentStatusType,
        last_modified_by: String,
    },
    /// Answer the request.
    Respond(Result<String, HttpError>),
}

impl RampState {
    /// The event belongs to the state.
    pub open spec fn accepts(self, event: RampEvent) -> bool {
        match event {
            RampEvent::Fetched { experiment, .. } => {
                &&& self is Fetching
                &&& experiment matches Fetched::Found(stored) ==> (stored.variants matches Some(
                    variants,
                ) ==> variants@.len() % 256 != 0)
            },
            RampEvent::Stored(_) => self is Storing,
        }
    }
}

/// The machine ends, and the request is refused with this status and text.
pub open spec fn refuses(
    next: RampState,
    action: RampAction,
    status: u16,
    text: Seq<char>,
) -> bool {
    &&& next is Done
    &&& action matches RampAction::Respond(Err(e))
    &&& e.says(status, text)
}

/// The step that the machine takes in a state on an event.
pub open spec fn ramp_step(
    state: RampState,
    event: RampEvent,
    next: RampState,
    action: RampAction,
) -> bool {
    match event {
        RampEvent::Fetched { id, experiment, requested, requested_by } => match experiment {
            Fetched::NotFound => refuses(next, action, 404, "No results found"@),
            Fetched::Failed => refuses(next, action, 500, "Something went wrong"@),
            Fetched::Found(stored) => match ramp_refusal(stored, requested) {
                Some((status, text)) => refuses(next, action, status, text),
                None => {
                    &&& next == (RampState::Storing { id })
                    &&& action == (RampAction::Store {
                        id,
                        traffic_percentage: stored_percentage(requested) as i32,
                        status: ExperimentStatusType::INPROGRESS,
                        last_modified_by: requested_by,
                    })
                },
            },
        },
        RampEvent::Stored(outcome) => {
            if outcome matches Ok(count) && count > 0 {
                &&& next is Done
                &&& action matches RampAction::Respond(Ok(text))
                &&& text@ == "Traffic percentage has been updated for the experiment id : "@
                    + signed_decimal(state->id as int)
            } else {
                refuses(next, action, 500, "Failed to update the traffic_percentage"@)
            }
        },
    }
}

/// Takes the next step of changing the share of traffic of an experiment.
pub fn ramp(state: RampState, event: RampEvent) -> (r: (RampState, RampAction))
    requires
        state.accepts(event),
    ensures
        ramp_step(state, event, r.0, r.1),
{
    match event {
        RampEvent::Fetched { id, experiment, requested, requested_by } => {
            let outcome = match experiment {
                Fetched::Found(stored) => check_ramp(stored, requested),
                Fetched::NotFound => Err(HttpError::not_found("No results found")),
                Fetched::Failed => Err(HttpError::internal("Something went wrong")),
            };
            match outcome {
                Ok(traffic_percentage) => (
                    RampState::Storing { id },
                    RampAction::Store {
                        id,
                        traffic_percentage,
                        status: ExperimentStatusType::INPROGRESS,
                        last_modified_by: requested_by,
                    },
                ),
                Err(e) => (RampState::Done, RampAction::Respond(Err(e))),
            }
        },
        RampEvent::Stored(outcome) => {
            let changed: usize = match outcome {
                Ok(count) => count,
                Err(_) => 0,
            };
            match state {
                RampState::Storing { id } if changed > 0 => {
                    let mut text: String =
                        "Traffic percentage has been updated for the experiment id : ".to_owned();
                    text.append(i64_to_string(id).as_str());
                    (RampState::Done, RampAction::Respond(Ok(text)))
                },
                _ => {
                    let e = HttpError::internal("Failed to update the traffic_percentage");
                    (RampState::Done, RampAction::Respond(Err(e)))
                },
            }
        },
    }
}

/// The variants never get more than all traffic together: a share that is stored, for fewer than
/// 256 variants and a request below 256, is the requested one, differs from the share before
/// (where that was a percentage), and times the number of variants is at most 100.
pub proof fn law_traffic_fits(experiment: RampedExperiment, requested: u64)
    requires
        ramp_refusal(experiment, requested) is None,
        requested < 256,
        0 < experiment.variants->0@.len() < 256,
        0 <= experiment.traffic_percentage < 256,
    ensures
        stored_percentage(requested) == requested,
        requested != experiment.traffic_percentage,
        requested * experiment.variants->0@.len() <= 100,
{
    let count = experiment.variants->0@.len() as int;
    let limit = 100int / count;
    assert(requested * count <= limit * count) by (nonlinear_arith)
        requires
            requested <= limit,
            count > 0,
    ;
    assert(limit * count <= 100) by (nonlinear_arith)
        requires
            limit == 100int / count,
            count > 0,
    ;
}

/// A share is stored only for an experiment that was found, whose variants could be read, and
/// that is not concluded; the experiment is then in progress.
pub proof fn law_concluded_is_not_ramped(
    state: RampState,
    event: RampEvent,
    next: RampState,
    action: RampAction,
)
    requires
        state.accepts(event),
        ramp_step(state, event, next, action),
        action is Store,
    ensures
        ({
            &&& event matches RampEvent::Fetched { id, experiment, .. }
            &&& experiment matches Fetched::Found(stored)
            &&& stored.status != ExperimentStatusType::CONCLUDED
            &&& stored.variants is Some
            &&& next == (RampState::Storing { id })
        }),
        action->status == ExperimentStatusType::INPROGRESS,
{
}

/// A request that succeeds has changed the share: the experiment was found, nothing spoke against
/// the change, and the requested share was stored in that experiment, which is then in progress,
/// together with who asked for it.
pub proof fn law_success_ramps(
    fetch: RampEvent,
    between: RampState,
    store: RampAction,
    event: RampEvent,
    next: RampState,
    text: String,
)
    requires
        RampState::Fetching.accepts(fetch),
        ramp_step(RampState::Fetching, fetch, between, store),
        between.accepts(event),
        ramp_step(between, event, next, RampAction::Respond(Ok(text))),
    ensures
        ({
            &&& fetch matches RampEvent::Fetched { id, experiment, requested, requested_by }
            &&& experiment matches Fetched::Found(stored)
            &&& ramp_refusal(stored, requested) is None
            &&& store matches RampAction::Store {
                id: stored_id,
                traffic_percentage,
                status,
                last_modified_by,
            }
            &&& stored_id == id
            &&& traffic_percentage == stored_percentage(requested)
            &&& status == ExperimentStatusType::INPROGRESS
            &&& last_modified_by == requested_by
            &&& event matches RampEvent::Stored(Ok(count))
            &&& count > 0
            &&& text@ == "Traffic percentage has been updated for the experiment id : "@
                + signed_decimal(id as int)
        }),
{
}

/// A machine that has not ended waits for the outcome of the action that it asked for, and a
/// machine that has ended takes no further event.
pub proof fn law_ramp_ends(state: RampState, event: RampEvent, next: RampState, action: RampAction)
    requires
        state.accepts(event),
        ramp_step(state, event, next, action),
    ensures
        next is Done <==> action is Respond,
        next is Storing <==> action is Store,
        forall|e: RampEvent| !(#[trigger] RampState::Done.accepts(e)),
{
}

/// Every share that fits is accepted: for an experiment that is not concluded, be it created or in
/// progress, with 1 to 255 variants and a stored share from 0 to 255, each requested share that times
/// the number of variants is at most 100, and that differs from the stored one, is stored as
/// requested, for that experiment and on behalf of who asked.
pub proof fn law_fitting_share_is_stored(
    id: i64,
    stored: RampedExperiment,
    variants: Vec<Variant>,
    requested: u64,
    requested_by: String,
    next: RampState,
    action: RampAction,
)
    requires
        stored.status != ExperimentStatusType::CONCLUDED,
        stored.variants == Some(variants),
        1 <= variants@.len() < 256,
        0 <= stored.traffic_percentage < 256,
        requested * variants@.len() <= 100,
        requested != stored.traffic_percentage,
        ramp_step(
            RampState::Fetching,
            RampEvent::Fetched { id, experiment: Fetched::Found(stored), requested, requested_by },
            next,
            action,
        ),
    ensures
        next == (RampState::Storing { id }),
        action matches RampAction::Store {
            id: stored_id,
            traffic_percentage,
            status,
            last_modified_by,
        } && stored_id == id && traffic_percentage == requested && status
            == ExperimentStatusType::INPROGRESS && last_modified_by@ == requested_by@,
{
    let count = variants@.len() as int;
    assert(requested <= 100) by (nonlinear_arith)
        requires
            requested * count <= 100,
            count >= 1,
    ;
    assert(requested <= 100int / count) by (nonlinear_arith)
        requires
            requested * count <= 100,
            count >= 1,
    ;
}

/// Every share that does not fit is refused, and the refusal names the largest share that does:
/// times the number of variants it is at most 100, and one more would be over.
pub proof fn law_exceeding_share_is_refused(
    id: i64,
    stored: RampedExperiment,
    variants: Vec<Variant>,
    requested: u64,
    requested_by: String,
    limit: nat,
    next: RampState,
    action: RampAction,
)
    requires
        stored.status != ExperimentStatusType::CONCLUDED,
        stored.variants == Some(variants),
        1 <= variants@.len() < 256,
        requested < 256,
        requested * variants@.len() > 100,
        limit * variants@.len() <= 100,
        (limit + 1) * variants@.len() > 100,
        ramp_step(
            RampState::Fetching,
            RampEvent::Fetched { id, experiment: Fetched::Found(stored), requested, requested_by },
            next,
            action,
        ),
    ensures
        refuses(
            next,
            action,
            400,
            "The traffic_percentage cannot exceed "@ + decimal(limit),
        ),
{
    let count = variants@.len() as int;
    assert(100int / count == limit) by (nonlinear_arith)
        requires
            limit * count <= 100,
            (limit + 1) * count > 100,
            count >= 1,
    ;
    assert(requested > limit) by (nonlinear_arith)
        requires
            requested * count > 100,
            limit * count <= 100,
            count >= 1,
    ;
}

/// The share that an experiment already has is refused, as is any share for a concluded experiment
/// and for one whose variants cannot be read or that is not to be had.
pub proof fn law_ramp_is_refused(
    id: i64,
    experiment: Fetched<RampedExperiment>,
    requested: u64,
    requested_by: String,
    next: RampState,
    action: RampAction,
)
    requires
        ramp_step(
            RampState::Fetching,
            RampEvent::Fetched { id, experiment, requested, requested_by },
            next,
            action,
        ),
    ensures
        experiment is NotFound ==> refuses(next, action, 404, "No results found"@),
        experiment is Failed ==> refuses(next, action, 500, "Something went wrong"@),
        experiment matches Fetched::Found(stored) ==> {
            &&& stored.variants is None ==> refuses(next, action, 500, ""@)
            &&& stored.variants is Some && stored.status == ExperimentStatusType::CONCLUDED
                ==> refuses(next, action, 400, "Experiment is already concluded"@)
            &&& stored.variants is Some && stored.status != ExperimentStatusType::CONCLUDED && 1
                <= stored.variants->0@.len() < 256 && requested * stored.variants->0@.len() <= 100
                && requested == stored.traffic_percentage ==> refuses(
                next,
                action,
                400,
                "The traffic_percentage is same as provided"@,
            )
        },
{
    if experiment matches Fetched::Found(stored) && stored.variants is Some && 1
        <= stored.variants->0@.len() < 256 && requested * stored.variants->0@.len() <= 100 {
        let count = experiment->Found_0.variants->0@.len() as int;
        assert(requested <= 100) by (nonlinear_arith)
            requires
                requested * count <= 100,
                count >= 1,
        ;
        assert(requested <= 100int / count) by (nonlinear_arith)
            requires
                requested * count <= 100,
                count >= 1,
        ;
    }
}

/// Only the lowest byte of the requested share, of the stored one and of the number of variants
/// counts for the decision, and of the requested share the lowest 32 bits are stored.
pub proof fn law_lowest_bytes_decide(
    one: RampedExperiment,
    requested: u64,
    other: RampedExperiment,
    requested_then: u64,
)
    requires
        one.status == other.status,
        one.variants is Some,
        other.variants is Some,
        one.variants->0@.len() % 256 == other.variants->0@.len() % 256,
        (one.traffic_percentage as int) % 256 == (other.traffic_percentage as int) % 256,
        requested % 256 == requested_then % 256,
    ensures
        ramp_refusal(one, requested) == ramp_refusal(other, requested_then),
        i32::MIN <= stored_percentage(requested) <= i32::MAX,
        exists|k: int| requested == stored_percentage(requested) + #[trigger] (k * 0x1_0000_0000),
{
    let high = requested as int / 0x1_0000_0000;
    let k = if stored_percentage(requested) < 0 {
        high + 1
    } else {
        high
    };
    assert(requested == stored_percentage(requested) + k * 0x1_0000_0000);
}

/// The answer tells whether anything was changed.
pub proof fn law_change_is_told(
    id: i64,
    outcome: Result<usize, ()>,
    next: RampState,
    action: RampAction,
)
    requires
        ramp_step(RampState::Storing { id }, RampEvent::Stored(outcome), next, action),
    ensures
        next is Done,
        (outcome matches Ok(count) && count > 0) ==> (action matches RampAction::Respond(Ok(text))
            && text@ == "Traffic percentage has been updated for the experiment id : "@
            + signed_decimal(id as int)),
        !(outcome matches Ok(count) && count > 0) ==> refuses(
            next,
            action,
            500,
            "Failed to update the traffic_percentage"@,
        ),
{
}

/// The machine takes every outcome of a query but an experiment whose number of variants is a
/// multiple of 256, and every outcome of storing.
pub proof fn law_ramp_takes_outcomes(
    id: i64,
    experiment: Fetched<RampedExperiment>,
    requested: u64,
    requested_by: String,
    outcome: Result<usize, ()>,
)
    requires
        experiment matches Fetched::Found(stored) ==> (stored.variants matches Some(variants)
            ==> variants@.len() % 256 != 0),
    ensures
        RampState::Fetching.accepts(RampEvent::Fetched { id, experiment, requested, requested_by }),
        (RampState::Storing { id }).accepts(RampEvent::Stored(outcome)),
{
}

/// A refusal says one thing: its status and its text are those of the answer.
pub proof fn law_refusal_says_one_thing(
    next: RampState,
    action: RampAction,
    status: u16,
    text: Seq<char>,
    other_status: u16,
    other_text: Seq<char>,
)
    requires
        refuses(next, action, status, text),
    ensures
        next is Done,
        action is Respond,
        refuses(next, action, other_status, other_text) ==> status == other_status && text
            == other_text,
{
}

} // verus!
