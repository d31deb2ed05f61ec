//! Ending an experiment with a winner.
use vstd::prelude::*;

use crate::error::HttpError;
use crate::json::{Json, JsonMap, JsonView, Members};
use crate::text::same_text;

use super::types::{
    action_views, bulk_operations_path, bulk_operations_url, variant_views, ContextAction,
    ContextActionView, ContextPutReq, ExperimentStatusType, Fetched, Variant, VariantView,
};

verus! {

/// What concluding reads of a stored experiment. `variants` is nothing if the stored variants
/// cannot be read.
pub struct StoredExperiment {
    pub status: ExperimentStatusType,
    pub context: Json,
    pub variants: Option<Vec<Variant>>,
}

/// Some variant has the id.
pub open spec fn has_variant(variants: Seq<VariantView>, id: Seq<char>) -> bool {
    exists|i: int| 0 <= i < variants.len() && (#[trigger] variants[i]).id == id
}

/// Every variant has a context.
pub open spec fn all_have_contexts(variants: Seq<VariantView>) -> bool {
    forall|i: int| 0 <= i < variants.len() ==> (#[trigger] variants[i]).context_id is Some
}

/// What becomes of the context of one variant: the winner's is replaced by the experiment's own
/// context, and any other one is removed.
pub open spec fn variant_action(
    variant: VariantView,
    context: Members,
    winner: Seq<char>,
) -> ContextActionView {
    if variant.id == winner {
        ContextActionView::Move {
            id: variant.context_id->0,
            context,
            overrides: variant.overrides,
        }
    } else {
        ContextActionView::Delete { id: variant.context_id->0 }
    }
}

/// The changes of contexts with which an experiment is concluded; or the status and the text of
/// the refusal.
pub open spec fn conclusion(experiment: StoredExperiment, winner: Seq<char>) -> Result<
    Seq<ContextActionView>,
    (u16, Seq<char>),
> {
    if experiment.status == ExperimentStatusType::CONCLUDED {
        Err((400, "experiment is already concluded"@))
    } else {
        match (experiment.context@, experiment.variants) {
            (JsonView::Object(context), Some(stored)) => {
                let variants = variant_views(stored@);
                if !all_have_contexts(variants) {
                    Err((500, ""@))
                } else if !has_variant(variants, winner) {
                    Err((404, "winner varaint not found"@))
                } else {
                    Ok(variants.map_values(|v: VariantView| variant_action(v, context, winner)))
                }
            },
            _ => Err((500, ""@)),
        }
    }
}

/// The changes of contexts with which an experiment is concluded.
pub fn plan_conclusion(experiment: StoredExperiment, winner: &str) -> (r: Result<
    Vec<ContextAction>,
    HttpError,
>)
    ensures
        match conclusion(experiment, winner@) {
            Ok(actions) => r matches Ok(operations) && action_views(operations@) == actions,
            Err((status, text)) => r matches Err(e) && e.says(status, text),
        },
{
    if experiment.status == ExperimentStatusType::CONCLUDED {
        return Err(HttpError::bad_request("experiment is already concluded"));
    }
    let context: JsonMap = match experiment.context {
        Json::Object(context) => context,
        _ => {
            return Err(HttpError::internal(""));
        },
    };
    let variants: Vec<Variant> = match experiment.variants {
        Some(variants) => variants,
        None => {
            return Err(HttpError::internal(""));
        },
    };
    let ghost all = variant_views(variants@);
    let mut operations: Vec<ContextAction> = Vec::new();
    let mut is_valid_winner_variant: bool = false;
    for variant in it: variants
        invariant
            it.seq() == variants@,
            all == variant_views(variants@),
            conclusion(experiment, winner@) == (if !all_have_contexts(all) {
                Err::<Seq<ContextActionView>, (u16, Seq<char>)>((500, ""@))
            } else if !has_variant(all, winner@) {
                Err((404, "winner varaint not found"@))
            } else {
                Ok(all.map_values(|v: VariantView| variant_action(v, context@, winner@)))
            }),
            operations@.len() == it.index(),
            forall|j: int| 0 <= j < it.index() ==> (#[trigger] all[j]).context_id is Some,
            forall|j: int|
                0 <= j < it.index() ==> (#[trigger] operations@[j])@ == variant_action(
                    all[j],
                    context@,
                    winner@,
                ),
            is_valid_winner_variant <==> (exists|j: int|
                0 <= j < it.index() && (#[trigger] all[j]).id == winner@),
    {
        let ghost at = it.index();
        assert(all[at] == variant@);
        let context_id: String = match variant.context_id {
            Some(context_id) => context_id,
            None => {
                return Err(HttpError::internal(""));
            },
        };
        if same_text(variant.id.as_str(), winner) {
            is_valid_winner_variant = true;
            operations.push(
                ContextAction::MOVE(
                    context_id,
                    ContextPutReq { context: context.clone(), overrides: variant.overrides },
                ),
            );
        } else {
            operations.push(ContextAction::DELETE(context_id));
        }
    }
    if !is_valid_winner_variant {
        return Err(HttpError::not_found("winner varaint not found"));
    }
    assert(action_views(operations@) =~= all.map_values(
        |v: VariantView| variant_action(v, context@, winner@),
    ));
    Ok(operations)
}

/// Where concluding an experiment stands.
pub enum ConcludeState {
    /// The experiment is being fetched.
    Fetching,
    /// The changes of contexts are being sent, for the experiment with this id and on behalf of
    /// this user.
    Changing { id: i64, concluded_by: String },
    /// The new status is being stored.
    Storing,
    /// The request was answered.
    Done,
}

/// What happened outside. `R` is a stored experiment as the answer shows it.
pub enum ConcludeEvent<R> {
    /// The query for the experiment with this id ended.
    Fetched {
        id: i64,
        experiment: Fetched<StoredExperiment>,
        winner_variant: String,
        cac_host: String,
        concluded_by: String,
    },
    /// The changes of contexts were answered with a status, or could not be sent.
    Changed(Result<u16, ()>),
    /// The new status was stored, or could not be.
    Stored(Result<R, ()>),
}

/// What to do next.
pub enum ConcludeAction<R> {
    /// Send the changes of contexts.
    SendChanges { url: String, operations: Vec<ContextAction> },
    /// Store these in the experiment with this id, with the time as that of its last modification,
    /// and leave everything else of it, and all other experiments, as they are.
    StoreStatus { id: i64, status: ExperimentStatusType, last_modified_by: String },
    /// Answer the request.
    Respond(Result<R, HttpError>),
}

impl ConcludeState {
    /// The event belongs to the state.
    pub open spec fn accepts<R>(self, event: ConcludeEvent<R>) -> bool {
        match event {
            ConcludeEvent::Fetched { .. } => self is Fetching,
            ConcludeEvent::Changed(_) => self is Changing,
            ConcludeEvent::Stored(_) => self is Storing,
        }
    }
}

/// The machine ends, and the request is refused with this status and text.
pub open spec fn refuses<R>(
    next: ConcludeState,
    action: ConcludeAction<R>,
    status: u16,
    text: Seq<char>,
) -> bool {
    &&& next is Done
    &&& action matches ConcludeAction::Respond(Err(e))
    &&& e.says(status, text)
}

/// The step that the machine takes in a state on an event.
pub open spec fn conclude_step<R>(
    state: ConcludeState,
    event: ConcludeEvent<R>,
    next: ConcludeState,
    action: ConcludeAction<R>,
) -> bool {
    match event {
        ConcludeEvent::Fetched { id, experiment, winner_variant, cac_host, concluded_by } => match experiment {
            Fetched::NotFound => refuses(next, action, 404, "experiment not found"@),
            Fetched::Failed => refuses(next, action, 500, "something went wrong."@),
            Fetched::Found(stored) => match conclusion(stored, winner_variant@) {
                Err((status, text)) => refuses(next, action, status, text),
                Ok(changes) => {
                    &&& next == (ConcludeState::Changing { id, concluded_by })
                    &&& action matches ConcludeAction::SendChanges { url, operations }
                    &&& url@ == bulk_operations_path(cac_host@)
                    &&& action_views(operations@) == changes
                },
            },
        },
        ConcludeEvent::Changed(outcome) => {
            if outcome matches Ok(status) && 200 <= status < 300 {
                &&& next is Storing
                &&& action == (ConcludeAction::<R>::StoreStatus {
                    id: state->id,
                    status: ExperimentStatusType::CONCLUDED,
                    last_modified_by: state->concluded_by,
                })
            } else {
                refuses(next, action, 500, ""@)
            }
        },
        ConcludeEvent::Stored(outcome) => match outcome {
            Ok(updated) => {
                &&& next is Done
                &&& action == ConcludeAction::<R>::Respond(Ok(updated))
            },
            Err(_) => refuses(next, action, 500, ""@),
        },
    }
}

/// Takes the next step of concluding an experiment.
pub fn conclude<R>(state: ConcludeState, event: ConcludeEvent<R>) -> (r: (
    ConcludeState,
    ConcludeAction<R>,
))
    requires
        state.accepts(event),
    ensures
        conclude_step(state, event, r.0, r.1),
{
    match (state, event) {
        (
            _,
            ConcludeEvent::Fetched { id, experiment, winner_variant, cac_host, concluded_by },
        ) => {
            let outcome = match experiment {
                Fetched::Found(stored) => plan_conclusion(stored, winner_variant.as_str()),
                Fetched::NotFound => Err(HttpError::not_found("experiment not found")),
                Fetched::Failed => Err(HttpError::internal("something went wrong.")),
            };
            match outcome {
                Ok(operations) => {
                    let url: String = bulk_operations_url(cac_host);
                    (
                        ConcludeState::Changing { id, concluded_by },
                        ConcludeAction::SendChanges { url, operations },
                    )
                },
                Err(e) => (ConcludeState::Done, ConcludeAction::Respond(Err(e))),
            }
        },
        (ConcludeState::Changing { id, concluded_by }, ConcludeEvent::Changed(outcome)) => {
            let success: bool = match outcome {
                Ok(status) => 200 <= status && status < 300,
                Err(_) => false,
            };
            if success {
                (
                    ConcludeState::Storing,
                    ConcludeAction::StoreStatus {
                        id,
                        status: ExperimentStatusType::CONCLUDED,
                        last_modified_by: concluded_by,
                    },
                )
            } else {
                (ConcludeState::Done, ConcludeAction::Respond(Err(HttpError::internal(""))))
            }
        },
        (_, ConcludeEvent::Stored(outcome)) => match outcome {
            Ok(updated) => (ConcludeState::Done, ConcludeAction::Respond(Ok(updated))),
            Err(_) => (ConcludeState::Done, ConcludeAction::Respond(Err(HttpError::internal("")))),
        },
        _ => vstd::pervasive::unreached(),
    }
}

/// An experiment is concluded at most once: when it already is, the request is refused and no
/// context is touched.
pub proof fn law_concluded_stays_concluded<R>(
    id: i64,
    stored: StoredExperiment,
    winner_variant: String,
    cac_host: String,
    concluded_by: String,
    next: ConcludeState,
    action: ConcludeAction<R>,
)
    requires
        stored.status == ExperimentStatusType::CONCLUDED,
        conclude_step(
            ConcludeState::Fetching,
            ConcludeEvent::Fetched {
                id,
                experiment: Fetched::Found(stored),
                winner_variant,
                cac_host,
                concluded_by,
            },
            next,
            action,
        ),
    ensures
        refuses(next, action, 400, "experiment is already concluded"@),
{
}

/// The status is stored only after the changes of contexts succeeded, and it is then stored as
/// concluded.
pub proof fn law_status_follows_contexts<R>(
    state: ConcludeState,
    event: ConcludeEvent<R>,
    next: ConcludeState,
    action: ConcludeAction<R>,
)
    requires
        state.accepts(event),
        conclude_step(state, event, next, action),
        action is StoreStatus,
    ensures
        state is Changing,
        event matches ConcludeEvent::Changed(Ok(status)) && 200 <= status < 300,
        action->status == ExperimentStatusType::CONCLUDED,
        next is Storing,
{
}

/// One step of a machine: what happened, where that led, and what to do next.
pub struct ConcludeMove<R> {
    pub event: ConcludeEvent<R>,
    pub next: ConcludeState,
    pub action: ConcludeAction<R>,
}

/// The state in front of step `i` of a run.
pub open spec fn state_before<R>(run: Seq<ConcludeMove<R>>, i: int) -> ConcludeState {
    if i == 0 {
        ConcludeState::Fetching
    } else {
        run[i - 1].next
    }
}

/// The steps follow each other from the start.
pub open spec fn is_run<R>(run: Seq<ConcludeMove<R>>) -> bool {
    forall|i: int|
        0 <= i < run.len() ==> {
            &&& #[trigger] state_before(run, i).accepts(run[i].event)
            &&& conclude_step(state_before(run, i), run[i].event, run[i].next, run[i].action)
        }
}

proof fn lemma_run_order<R>(run: Seq<ConcludeMove<R>>, i: int)
    requires
        is_run(run),
        0 <= i < run.len(),
    ensures
        !(run[i].next is Fetching),
        run[i].next is Changing ==> i == 0,
        run[i].next is Storing ==> i == 1,
    decreases i,
{
    assert(state_before(run, i).accepts(run[i].event));
    if i > 0 {
        lemma_run_order(run, i - 1);
    }
}

/// A request that succeeds has concluded the experiment: the changes of contexts with which it is
/// concluded were sent and succeeded, the status was stored in that experiment together with who
/// asked for it, and what was stored is answered.
pub proof fn law_success_concludes<R>(run: Seq<ConcludeMove<R>>, i: int, updated: R)
    requires
        is_run(run),
        0 <= i < run.len(),
        run[i].action == ConcludeAction::<R>::Respond(Ok(updated)),
    ensures
        i == 2,
        ({
            &&& run[0].event matches ConcludeEvent::Fetched {
                id,
                experiment,
                winner_variant,
                cac_host,
                concluded_by,
            }
            &&& experiment matches Fetched::Found(stored)
            &&& conclusion(stored, winner_variant@) matches Ok(changes)
            &&& run[0].action matches ConcludeAction::SendChanges { url, operations }
            &&& url@ == bulk_operations_path(cac_host@)
            &&& action_views(operations@) == changes
            &&& run[1].event matches ConcludeEvent::Changed(Ok(status))
            &&& 200 <= status < 300
            &&& run[1].action == (ConcludeAction::<R>::StoreStatus {
                id,
                status: ExperimentStatusType::CONCLUDED,
                last_modified_by: concluded_by,
            })
            &&& run[2].event == ConcludeEvent::Stored(Ok(updated))
        }),
{
    assert(state_before(run, i).accepts(run[i].event));
    assert(state_before(run, i) is Storing);
    lemma_run_order(run, i - 1);
    assert(state_before(run, 1).accepts(run[1].event));
    assert(state_before(run, 0).accepts(run[0].event));
}

/// A machine that has not ended waits for the outcome of the action that it asked for, and a
/// machine that has ended takes no further event.
pub proof fn law_conclude_ends<R>(
    state: ConcludeState,
    event: ConcludeEvent<R>,
    next: ConcludeState,
    action: ConcludeAction<R>,
)
    requires
        state.accepts(event),
        conclude_step(state, event, next, action),
    ensures
        next is Done <==> action is Respond,
        next is Changing <==> action is SendChanges,
        next is Storing <==> action is StoreStatus,
        forall|e: ConcludeEvent<R>| !(#[trigger] ConcludeState::Done.accepts(e)),
{
}

/// Concluding accounts for every variant: there is one change per variant, in order. The contexts
/// of the variants with the winner's id are replaced by the experiment's context, with that
/// variant's overrides, and all others are removed; at least one is replaced.
pub proof fn law_conclusion_covers_variants(experiment: StoredExperiment, winner: Seq<char>, i: int)
    requires
        conclusion(experiment, winner) is Ok,
        0 <= i < experiment.variants->0@.len(),
    ensures
        conclusion(experiment, winner)->Ok_0.len() == experiment.variants->0@.len(),
        experiment.variants->0@[i]@.id == winner ==> conclusion(experiment, winner)->Ok_0[i]
            == (ContextActionView::Move {
            id: experiment.variants->0@[i]@.context_id->0,
            context: experiment.context@->Object_0,
            overrides: experiment.variants->0@[i]@.overrides,
        }),
        experiment.variants->0@[i]@.id != winner ==> conclusion(experiment, winner)->Ok_0[i]
            == (ContextActionView::Delete { id: experiment.variants->0@[i]@.context_id->0 }),
        exists|j: int|
            0 <= j < experiment.variants->0@.len() && #[trigger] conclusion(
                experiment,
                winner,
            )->Ok_0[j] is Move,
{
    let variants = variant_views(experiment.variants->0@);
    assert(variants[i] == experiment.variants->0@[i]@);
    let j = choose|j: int| 0 <= j < variants.len() && (#[trigger] variants[j]).id == winner;
    assert(conclusion(experiment, winner)->Ok_0[j] is Move);
}

/// Any variant can win, of whatever type: for an experiment that is not concluded, be it created or
/// in progress, whose context is an object and whose variants can be read and all have contexts,
/// every variant's id is accepted as the winner. The contexts of the variants with that id are then
/// replaced by the experiment's context with their own overrides, all others are removed, one change
/// per variant and in their order.
pub proof fn law_any_variant_can_win<R>(
    id: i64,
    stored: StoredExperiment,
    context: JsonMap,
    variants: Vec<Variant>,
    winner: int,
    winner_variant: String,
    cac_host: String,
    concluded_by: String,
    next: ConcludeState,
    action: ConcludeAction<R>,
    k: int,
)
    requires
        stored.status != ExperimentStatusType::CONCLUDED,
        stored.context == Json::Object(context),
        stored.variants == Some(variants),
        forall|j: int| 0 <= j < variants@.len() ==> (#[trigger] variants@[j]).context_id is Some,
        0 <= winner < variants@.len(),
        winner_variant@ == variants@[winner].id@,
        conclude_step(
            ConcludeState::Fetching,
            ConcludeEvent::Fetched {
                id,
                experiment: Fetched::Found(stored),
                winner_variant,
                cac_host,
                concluded_by,
            },
            next,
            action,
        ),
        0 <= k < variants@.len(),
    ensures
        next == (ConcludeState::Changing { id, concluded_by }),
        ({
            &&& action matches ConcludeAction::SendChanges { url, operations }
            &&& url@ == cac_host@ + "/context/bulk-operations"@
            &&& operations@.len() == variants@.len()
            &&& if variants@[k].id@ == winner_variant@ {
                &&& operations@[k] matches ContextAction::MOVE(context_id, request)
                &&& context_id@ == variants@[k].context_id->0@
                &&& request.context@ == context@
                &&& request.overrides@ == variants@[k].overrides@
            } else {
                &&& operations@[k] matches ContextAction::DELETE(context_id)
                &&& context_id@ == variants@[k].context_id->0@
            }
        }),
{
    let views = variant_views(variants@);
    assert(stored.context@ == JsonView::Object(context@));
    assert forall|j: int| 0 <= j < views.len() implies (#[trigger] views[j]).context_id is Some by {
        assert(variants@[j].context_id is Some);
    }
    assert(views[winner].id == winner_variant@);
    assert(action is SendChanges);
    let operations = action->operations@;
    let changes = conclusion(stored, winner_variant@)->Ok_0;
    assert(action_views(operations) == changes);
    assert(action_views(operations).len() == operations.len());
    assert(action_views(operations)[k] == operations[k]@);
    assert(views[k] == variants@[k]@);
    assert(changes[k] == variant_action(views[k], context@, winner_variant@));
}

/// Concluding is refused for these reasons and no others: the experiment is not to be had, it is
/// already concluded, its context is no object, its variants cannot be read, one of them has no
/// context, or none has the id of the winner.
pub proof fn law_conclude_is_refused<R>(
    id: i64,
    experiment: Fetched<StoredExperiment>,
    winner_variant: String,
    cac_host: String,
    concluded_by: String,
    next: ConcludeState,
    action: ConcludeAction<R>,
)
    requires
        conclude_step(
            ConcludeState::Fetching,
            ConcludeEvent::Fetched { id, experiment, winner_variant, cac_host, concluded_by },
            next,
            action,
        ),
    ensures
        experiment is NotFound ==> refuses(next, action, 404, "experiment not found"@),
        experiment is Failed ==> refuses(next, action, 500, "something went wrong."@),
        experiment matches Fetched::Found(stored) ==> {
            let readable = stored.status != ExperimentStatusType::CONCLUDED && stored.context
                is Object && stored.variants is Some;
            let variants = stored.variants->0@;
            let lacking = exists|j: int|
                0 <= j < variants.len() && (#[trigger] variants[j]).context_id is None;
            let named = exists|j: int|
                0 <= j < variants.len() && (#[trigger] variants[j]).id@ == winner_variant@;
            &&& stored.status == ExperimentStatusType::CONCLUDED ==> refuses(
                next,
                action,
                400,
                "experiment is already concluded"@,
            )
            &&& stored.status != ExperimentStatusType::CONCLUDED && !readable ==> refuses(
                next,
                action,
                500,
                ""@,
            )
            &&& readable && lacking ==> refuses(next, action, 500, ""@)
            &&& readable && !lacking && !named ==> refuses(
                next,
                action,
                404,
                "winner varaint not found"@,
            )
            &&& readable && !lacking && named ==> action is SendChanges
        },
{
    if experiment matches Fetched::Found(stored) && stored.context is Object && stored.variants
        is Some {
        let stored = experiment->Found_0;
        let variants = stored.variants->0@;
        let views = variant_views(variants);
        assert(stored.context@ is Object);
        assert forall|j: int| 0 <= j < variants.len() implies #[trigger] views[j]
            == variants[j]@ by {}
        if all_have_contexts(views) {
            assert forall|j: int| 0 <= j < variants.len() implies (
            #[trigger] variants[j]).context_id is Some by {
                assert(views[j].context_id is Some);
            }
        } else {
            let j = choose|j: int|
                0 <= j < views.len() && !((#[trigger] views[j]).context_id is Some);
            assert(variants[j].context_id is None);
        }
        if has_variant(views, winner_variant@) {
            let j = choose|j: int|
                0 <= j < views.len() && (#[trigger] views[j]).id == winner_variant@;
            assert(variants[j].id@ == winner_variant@);
        } else {
            assert forall|j: int| 0 <= j < variants.len() implies (#[trigger] variants[j]).id@
                != winner_variant@ by {
                assert(views[j].id != winner_variant@);
            }
        }
    }
}

/// After the changes of contexts, every status of success leads to storing that the experiment is
/// concluded, and by whom; anything else ends the request, as does a failure to store.
pub proof fn law_success_is_stored<R>(
    id: i64,
    concluded_by: String,
    outcome: Result<u16, ()>,
    changed: (ConcludeState, ConcludeAction<R>),
    result: Result<R, ()>,
    stored: (ConcludeState, ConcludeAction<R>),
)
    requires
        conclude_step(
            ConcludeState::Changing { id, concluded_by },
            ConcludeEvent::Changed(outcome),
            changed.0,
            changed.1,
        ),
        conclude_step(
            ConcludeState::Storing,
            ConcludeEvent::Stored(result),
            stored.0,
            stored.1,
        ),
    ensures
        (outcome matches Ok(status) && 200 <= status <= 299) ==> ({
            &&& changed.0 is Storing
            &&& changed.1 == (ConcludeAction::<R>::StoreStatus {
                id,
                status: ExperimentStatusType::CONCLUDED,
                last_modified_by: concluded_by,
            })
        }),
        !(outcome matches Ok(status) && 200 <= status <= 299) ==> refuses(
            changed.0,
            changed.1,
            500,
            ""@,
        ),
        result matches Ok(updated) ==> stored.0 is Done && stored.1 == ConcludeAction::Respond(
            Ok::<R, HttpError>(updated),
        ),
        result is Err ==> refuses(stored.0, stored.1, 500, ""@),
{
}

/// The machine takes every outcome of the action that it asked for.
pub proof fn law_conclude_takes_outcomes<R>(
    fetched: ConcludeEvent<R>,
    id: i64,
    concluded_by: String,
    outcome: Result<u16, ()>,
    result: Result<R, ()>,
)
    requires
        fetched is Fetched,
    ensures
        ConcludeState::Fetching.accepts(fetched),
        (ConcludeState::Changing { id, concluded_by }).accepts(ConcludeEvent::<R>::Changed(outcome)),
        ConcludeState::Storing.accepts(ConcludeEvent::Stored(result)),
{
}

/// A refusal says one thing: its status and its text are those of the answer.
pub proof fn law_refusal_says_one_thing<R>(
    next: ConcludeState,
    action: ConcludeAction<R>,
    status: u16,
    text: Seq<char>,
    other_status: u16,
    other_text: Seq<char>,
)
    requires
        refuses(next, action, status, text),
    ensures
        next is Done,
        action is Respond,
        refuses(next, action, other_status, other_text) ==> status == other_status && text
            == other_text,
{
}

} // verus!
