//! Creating an experiment.
use vstd::prelude::*;

use crate::error::{ErrorBody, HttpError};
use crate::json::{law_lookup_finds_keys, lookup, Json, JsonMap, JsonView, Members};
use crate::text::{
    concat3, i64_to_string, law_signed_decimal_injective, lemma_signed_decimal_dash,
    signed_decimal, texts,
};

use super::types::{
    action_views, bulk_operations_path, bulk_operations_url, optional_text, variant_views,
    ContextAction, ContextActionView, ContextPutReq, ExperimentStatusType, Variant, VariantType,
    VariantView,
};

verus! {

/// What is asked for besides the variants, and by whom.
pub struct ExperimentDetails {
    pub name: String,
    pub override_keys: Vec<String>,
    pub context: Json,
    pub created_by: String,
}

/// An experiment as it is stored; the times are added when it is.
pub struct NewExperiment {
    pub id: i64,
    pub created_by: String,
    pub name: String,
    pub override_keys: Vec<String>,
    pub traffic_percentage: i32,
    pub status: ExperimentStatusType,
    pub context: Json,
    pub variants: Vec<Variant>,
    pub last_modified_by: String,
}

/// The answer to the changes that create the contexts: its status, and the ids that it lists;
/// `created` is nothing if they cannot be read.
pub struct ContextsReply {
    pub status: u16,
    pub created: Option<Vec<ContextPutResp>>,
}

/// What was created, according to a reply that says that all went well: the ids that it lists.
pub open spec fn created_of(outcome: Result<ContextsReply, ()>) -> Option<Vec<ContextPutResp>> {
    match outcome {
        Ok(reply) => if 200 <= reply.status < 300 {
            reply.created
        } else {
            None
        },
        Err(_) => None,
    }
}

/// The ids under which the context of a variant was created.
pub struct ContextPutResp {
    pub context_id: String,
    pub override_id: String,
}

/// The id of a variant within all experiments: the experiment's id, a dash, and the variant's
/// own id.
pub open spec fn variant_id(experiment_id: int, id: Seq<char>) -> Seq<char> {
    signed_decimal(experiment_id) + "-"@ + id
}

/// The variant with the id that it has within all experiments.
pub open spec fn numbered(variant: VariantView, experiment_id: int) -> VariantView {
    VariantView { id: variant_id(experiment_id, variant.id), ..variant }
}

pub open spec fn all_numbered(variants: Seq<VariantView>, experiment_id: int) -> Seq<VariantView> {
    variants.map_values(|v: VariantView| numbered(v, experiment_id))
}

/// Gives the variants the ids that they have within all experiments.
fn number_variants(variants: Vec<Variant>, experiment_id: i64) -> (r: Vec<Variant>)
    ensures
        variant_views(r@) == all_numbered(variant_views(variants@), experiment_id as int),
{
    let mut r: Vec<Variant> = Vec::new();
    for variant in it: variants
        invariant
            it.seq() == variants@,
            r@.len() == it.index(),
            forall|j: int|
                0 <= j < r@.len() ==> (#[trigger] r@[j])@ == numbered(
                    variants@[j]@,
                    experiment_id as int,
                ),
    {
        let id: String = concat3(i64_to_string(experiment_id).as_str(), "-", variant.id.as_str());
        r.push(
            Variant {
                id,
                variant_type: variant.variant_type,
                context_id: variant.context_id,
                override_id: variant.override_id,
                overrides: variant.overrides,
            },
        );
    }
    assert(variant_views(r@) =~= all_numbered(variant_views(variants@), experiment_id as int));
    r
}

/// How many of the variants are of a type.
pub open spec fn count_of(variants: Seq<VariantView>, variant_type: VariantType) -> nat
    decreases variants.len(),
{
    if variants.len() == 0 {
        0
    } else {
        count_of(variants.drop_last(), variant_type) + if variants.last().variant_type
            == variant_type {
            1nat
        } else {
            0nat
        }
    }
}

/// Exactly one variant is a control variant, and at least one is experimental.
pub open spec fn has_valid_types(variants: Seq<VariantView>) -> bool {
    &&& count_of(variants, VariantType::CONTROL) == 1
    &&& count_of(variants, VariantType::EXPERIMENTAL) >= 1
}

/// Whether exactly one variant is a control variant, and at least one is experimental.
pub fn check_variant_types(variants: &Vec<Variant>) -> (r: bool)
    ensures
        r == has_valid_types(variant_views(variants@)),
{
    let ghost all = variant_views(variants@);
    let mut control: usize = 0;
    let mut experimental: usize = 0;
    assert(all.take(0) =~= seq![]);
    for i in 0..variants.len()
        invariant
            all == variant_views(variants@),
            control == count_of(all.take(i as int), VariantType::CONTROL),
            experimental == count_of(all.take(i as int), VariantType::EXPERIMENTAL),
            control + experimental == i,
    {
        proof {
            assert(all.take(i as int + 1).drop_last() =~= all.take(i as int));
            assert(all.take(i as int + 1).last() == variants@[i as int]@);
        }
        match variants[i].variant_type {
            VariantType::CONTROL => {
                control = control + 1;
            },
            VariantType::EXPERIMENTAL => {
                experimental = experimental + 1;
            },
        }
    }
    assert(all.take(all.len() as int) =~= all);
    control == 1 && experimental >= 1
}

/// The overrides have a value for each of the keys.
pub open spec fn overrides_all(overrides: Members, keys: Seq<Seq<char>>) -> bool {
    forall|k: int| 0 <= k < keys.len() ==> lookup(overrides, #[trigger] keys[k]) is Some
}

/// Every variant overrides each of the keys.
pub open spec fn covers_keys(variants: Seq<VariantView>, keys: Seq<Seq<char>>) -> bool {
    forall|i: int|
        0 <= i < variants.len() ==> overrides_all((#[trigger] variants[i]).overrides, keys)
}

fn has_all_keys(overrides: &JsonMap, keys: &Vec<String>) -> (r: bool)
    ensures
        r == overrides_all(overrides@, texts(keys@)),
{
    for k in 0..keys.len()
        invariant
            forall|j: int|
                0 <= j < k ==> lookup(overrides@, #[trigger] texts(keys@)[j]) is Some,
    {
        assert(texts(keys@)[k as int] == keys@[k as int]@);
        if overrides.get(keys[k].as_str()).is_none() {
            return false;
        }
    }
    true
}

/// Whether every variant overrides each of the keys.
pub fn check_variants_override_coverage(
    variants: &Vec<Variant>,
    override_keys: &Vec<String>,
) -> (r: bool)
    ensures
        r == covers_keys(variant_views(variants@), texts(override_keys@)),
{
    let ghost all = variant_views(variants@);
    for i in 0..variants.len()
        invariant
            all == variant_views(variants@),
            forall|j: int|
                0 <= j < i ==> overrides_all(
                    (#[trigger] all[j]).overrides,
                    texts(override_keys@),
                ),
    {
        assert(all[i as int] == variants@[i as int]@);
        if !has_all_keys(&variants[i].overrides, override_keys) {
            return false;
        }
    }
    true
}

/// The ids of the variants.
pub open spec fn ids_of(variants: Seq<VariantView>) -> Seq<Seq<char>> {
    variants.map_values(|v: VariantView| v.id)
}

fn variant_ids(variants: &Vec<Variant>) -> (r: Vec<String>)
    ensures
        texts(r@) == ids_of(variant_views(variants@)),
{
    let mut r: Vec<String> = Vec::new();
    for i in 0..variants.len()
        invariant
            r@.len() == i,
            forall|j: int| 0 <= j < i ==> (#[trigger] r@[j])@ == variants@[j].id@,
    {
        r.push(variants[i].id.clone());
    }
    assert(texts(r@) =~= ids_of(variant_views(variants@)));
    r
}

/// What the contexts say that the variants' dimension was added to, where that succeeded.
pub open spec fn context_views(contexts: Seq<Option<Json>>) -> Seq<Option<JsonView>> {
    contexts.map_values(
        |c: Option<Json>|
            match c {
                Some(json) => Some(json@),
                None => None,
            },
    )
}

/// Every context is an object.
pub open spec fn all_objects(contexts: Seq<Option<JsonView>>) -> bool {
    forall|i: int| 0 <= i < contexts.len() ==> #[trigger] contexts[i] matches Some(JsonView::Object(_))
}

/// The changes that store each variant's overrides under its context.
pub open spec fn put_actions(
    variants: Seq<VariantView>,
    contexts: Seq<Option<JsonView>>,
) -> Seq<ContextActionView> {
    Seq::new(
        variants.len(),
        |i: int|
            ContextActionView::Put {
                context: contexts[i]->0->Object_0,
                overrides: variants[i].overrides,
            },
    )
}

/// The changes that store each variant's overrides under its context.
fn put_operations(variants: &Vec<Variant>, contexts: Vec<Option<Json>>) -> (r: Result<
    Vec<ContextAction>,
    HttpError,
>)
    requires
        contexts@.len() == variants@.len(),
    ensures
        if all_objects(context_views(contexts@)) {
            r matches Ok(operations) && action_views(operations@) == put_actions(
                variant_views(variants@),
                context_views(contexts@),
            )
        } else {
            r matches Err(e) && e.says(500, ""@)
        },
{
    let ghost views = context_views(contexts@);
    let mut operations: Vec<ContextAction> = Vec::new();
    for context in it: contexts
        invariant
            it.seq() == contexts@,
            views == context_views(contexts@),
            contexts@.len() == variants@.len(),
            operations@.len() == it.index(),
            forall|j: int|
                0 <= j < it.index() ==> #[trigger] views[j] matches Some(JsonView::Object(_)),
            forall|j: int|
                0 <= j < it.index() ==> (#[trigger] operations@[j])@ == (ContextActionView::Put {
                    context: views[j]->0->Object_0,
                    overrides: variants@[j].overrides@,
                }),
    {
        let ghost at = it.index();
        assert(views[at] == (match context {
            Some(json) => Some(json@),
            None => None,
        }));
        match context {
            Some(Json::Object(context)) => {
                let i: usize = operations.len();
                operations.push(
                    ContextAction::PUT(
                        ContextPutReq { context, overrides: variants[i].overrides.clone() },
                    ),
                );
            },
            _ => {
                return Err(HttpError::internal(""));
            },
        }
    }
    assert(action_views(operations@) =~= put_actions(variant_views(variants@), views));
    Ok(operations)
}

/// The variants, the first of which have the ids under which their contexts were created.
pub open spec fn with_context_ids(
    variants: Seq<VariantView>,
    created: Seq<ContextPutResp>,
) -> Seq<VariantView> {
    Seq::new(
        variants.len(),
        |i: int|
            if i < created.len() {
                VariantView {
                    context_id: Some(created[i].context_id@),
                    override_id: Some(created[i].override_id@),
                    ..variants[i]
                }
            } else {
                variants[i]
            },
    )
}

/// What was created, according to a reply that says that all went well.
fn read_reply(outcome: Result<ContextsReply, ()>) -> (r: Option<Vec<ContextPutResp>>)
    ensures
        r == created_of(outcome),
{
    match outcome {
        Ok(reply) => if 200 <= reply.status && reply.status < 300 {
            reply.created
        } else {
            None
        },
        Err(_) => None,
    }
}

/// Notes in the variants the ids under which their contexts were created.
fn note_context_ids(variants: Vec<Variant>, created: &Vec<ContextPutResp>) -> (r: Vec<Variant>)
    requires
        created@.len() <= variants@.len(),
    ensures
        variant_views(r@) == with_context_ids(variant_views(variants@), created@),
{
    let mut r: Vec<Variant> = Vec::new();
    for variant in it: variants
        invariant
            it.seq() == variants@,
            r@.len() == it.index(),
            forall|j: int|
                0 <= j < r@.len() ==> (#[trigger] r@[j])@ == with_context_ids(
                    variant_views(variants@),
                    created@,
                )[j],
    {
        let i: usize = r.len();
        assert(variant_views(variants@)[i as int] == variant@);
        if i < created.len() {
            r.push(
                Variant {
                    id: variant.id,
                    variant_type: variant.variant_type,
                    context_id: Some(created[i].context_id.clone()),
                    override_id: Some(created[i].override_id.clone()),
                    overrides: variant.overrides,
                },
            );
        } else {
            r.push(variant);
        }
    }
    assert(variant_views(r@) =~= with_context_ids(variant_views(variants@), created@));
    r
}

/// Where creating an experiment stands.
pub enum CreateState {
    /// The request was not looked at yet.
    Start,
    /// The experiment is being held against the other active experiments.
    Validating { details: ExperimentDetails, variants: Vec<Variant> },
    /// The id of the experiment is being made.
    Numbering { details: ExperimentDetails, variants: Vec<Variant> },
    /// The dimension of each variant is being added to the context.
    Extending { details: ExperimentDetails, id: i64, variants: Vec<Variant> },
    /// The contexts of the variants are being created.
    Changing { details: ExperimentDetails, id: i64, variants: Vec<Variant> },
    /// The experiment is being stored.
    Storing,
    /// The request was answered.
    Done,
}

/// What happened outside. `R` is an experiment as it comes back from where it was stored.
pub enum CreateEvent<R> {
    /// An experiment is asked for. `types_complaint` is the wording of the complaint about
    /// variants of the wrong types, for the case that they are.
    Requested { details: ExperimentDetails, variants: Vec<Variant>, types_complaint: String },
    /// The experiment was found valid or not, or that could not be found out.
    Validated(Result<bool, ()>),
    /// An id was made.
    Numbered(i64),
    /// The dimension of each variant was added to the context, or could not be.
    Extended { contexts: Vec<Option<Json>>, cac_host: String },
    /// The changes that create the contexts were answered, or could not be sent.
    Changed(Result<ContextsReply, ()>),
    /// The experiment was stored, or could not be.
    Stored(Result<Vec<R>, ()>),
}

/// What to do next.
pub enum CreateAction<R> {
    /// Hold the experiment against the other active experiments.
    Validate,
    /// Make an id.
    MakeId,
    /// Add the dimension of each variant, with its id as the value, to this context.
    ExtendContext { context: Json, variant_ids: Vec<String> },
    /// Create the contexts of the variants.
    SendChanges { url: String, operations: Vec<ContextAction> },
    /// Store the experiment.
    Store(NewExperiment),
    /// Answer the request.
    Respond(Result<R, HttpError>),
}

impl CreateState {
    /// The event belongs to the state.
    pub open spec fn accepts<R>(self, event: CreateEvent<R>) -> bool {
        match event {
            CreateEvent::Requested { .. } => self is Start,
            CreateEvent::Validated(_) => self is Validating,
            CreateEvent::Numbered(_) => self is Numbering,
            CreateEvent::Extended { contexts, .. } => {
                &&& self matches CreateState::Extending { variants, .. }
                &&& contexts@.len() == variants@.len()
            },
            CreateEvent::Changed(outcome) => {
                &&& self matches CreateState::Changing { variants, .. }
                &&& created_of(outcome) matches Some(created) ==> created@.len() <= variants@.len()
            },
            CreateEvent::Stored(outcome) => {
                &&& self is Storing
                &&& outcome matches Ok(rows) ==> rows@.len() >= 1
            },
        }
    }
}

/// The machine ends, and the request is refused with this status and text.
pub open spec fn refuses<R>(
    next: CreateState,
    action: CreateAction<R>,
    status: u16,
    text: Seq<char>,
) -> bool {
    &&& next is Done
    &&& action matches CreateAction::Respond(Err(e))
    &&& e.says(status, text)
}

/// The first rule that a request breaks, as the text of the refusal.
pub open spec fn broken_rule(
    details: ExperimentDetails,
    variants: Seq<VariantView>,
    types_complaint: Seq<char>,
) -> Option<Seq<char>> {
    if !has_valid_types(variants) {
        Some(types_complaint)
    } else if !covers_keys(variants, texts(details.override_keys@)) {
        Some("all variants should contain the keys mentioned override_keys"@)
    } else if !(details.context@ is Object) {
        Some("context should be map of key value pairs"@)
    } else {
        None
    }
}

/// The experiment that is stored.
pub open spec fn is_new_experiment(
    stored: NewExperiment,
    details: ExperimentDetails,
    id: i64,
    variants: Seq<VariantView>,
) -> bool {
    &&& stored.id == id
    &&& stored.created_by@ == details.created_by@
    &&& stored.name == details.name
    &&& stored.override_keys == details.override_keys
    &&& stored.traffic_percentage == 0
    &&& stored.status == ExperimentStatusType::CREATED
    &&& stored.context == details.context
    &&& variant_views(stored.variants@) == variants
    &&& stored.last_modified_by@ == details.created_by@
}

/// The step that the machine takes in a state on an event.
pub open spec fn create_step<R>(
    state: CreateState,
    event: CreateEvent<R>,
    next: CreateState,
    action: CreateAction<R>,
) -> bool {
    match (state, event) {
        (_, CreateEvent::Requested { details, variants, types_complaint }) => match broken_rule(
            details,
            variant_views(variants@),
            types_complaint@,
        ) {
            Some(text) => refuses(next, action, 400, text),
            None => {
                &&& next == CreateState::Validating { details, variants }
                &&& action is Validate
            },
        },
        (
            CreateState::Validating { details, variants },
            CreateEvent::Validated(outcome),
        ) => match outcome {
            Ok(valid) => if valid {
                &&& next == CreateState::Numbering { details, variants }
                &&& action is MakeId
            } else {
                refuses(next, action, 400, "invalid experiment config"@)
            },
            Err(_) => refuses(next, action, 500, ""@),
        },
        (CreateState::Numbering { details, variants }, CreateEvent::Numbered(id)) => {
            let renamed = all_numbered(variant_views(variants@), id as int);
            &&& next matches CreateState::Extending { details: d, id: n, variants: v }
            &&& d == details
            &&& n == id
            &&& variant_views(v@) == renamed
            &&& action matches CreateAction::ExtendContext { context, variant_ids }
            &&& context@ == details.context@
            &&& texts(variant_ids@) == ids_of(renamed)
        },
        (
            CreateState::Extending { details, id, variants },
            CreateEvent::Extended { contexts, cac_host },
        ) => if all_objects(context_views(contexts@)) {
            &&& next == CreateState::Changing { details, id, variants }
            &&& action matches CreateAction::SendChanges { url, operations }
            &&& url@ == bulk_operations_path(cac_host@)
            &&& action_views(operations@) == put_actions(
                variant_views(variants@),
                context_views(contexts@),
            )
        } else {
            refuses(next, action, 500, ""@)
        },
        (CreateState::Changing { details, id, variants }, CreateEvent::Changed(outcome)) => match created_of(
            outcome,
        ) {
            Some(created) => {
                &&& next is Storing
                &&& action matches CreateAction::Store(stored)
                &&& is_new_experiment(
                    stored,
                    details,
                    id,
                    with_context_ids(variant_views(variants@), created@),
                )
            },
            None => refuses(next, action, 500, ""@),
        },
        (_, CreateEvent::Stored(outcome)) => match outcome {
            Ok(rows) => {
                &&& next is Done
                &&& action == CreateAction::<R>::Respond(Ok(rows@[0]))
            },
            Err(_) => refuses(next, action, 500, "Failed to create experiment"@),
        },
        _ => false,
    }
}

fn refuse<R>(e: HttpError) -> (r: (CreateState, CreateAction<R>))
    ensures
        r.0 is Done,
        r.1 == CreateAction::<R>::Respond(Err(e)),
{
    (CreateState::Done, CreateAction::Respond(Err(e)))
}

/// Takes the next step of creating an experiment.
pub fn create<R>(state: CreateState, event: CreateEvent<R>) -> (r: (CreateState, CreateAction<R>))
    requires
        state.accepts(event),
    ensures
        create_step(state, event, r.0, r.1),
{
    match (state, event) {
        (_, CreateEvent::Requested { details, variants, types_complaint }) => {
            if !check_variant_types(&variants) {
                return refuse(HttpError { status: 400, body: ErrorBody::Text(types_complaint) });
            }
            if !check_variants_override_coverage(&variants, &details.override_keys) {
                return refuse(
                    HttpError::bad_request(
                        "all variants should contain the keys mentioned override_keys",
                    ),
                );
            }
            match &details.context {
                Json::Object(_) => {},
                _ => {
                    return refuse(
                        HttpError::bad_request("context should be map of key value pairs"),
                    );
                },
            }
            (CreateState::Validating { details, variants }, CreateAction::Validate)
        },
        (CreateState::Validating { details, variants }, CreateEvent::Validated(outcome)) => match outcome {
            Ok(valid) => if valid {
                (CreateState::Numbering { details, variants }, CreateAction::MakeId)
            } else {
                refuse(HttpError::bad_request("invalid experiment config"))
            },
            Err(_) => refuse(HttpError::internal("")),
        },
        (CreateState::Numbering { details, variants }, CreateEvent::Numbered(id)) => {
            let variants: Vec<Variant> = number_variants(variants, id);
            let variant_ids: Vec<String> = variant_ids(&variants);
            let context: Json = details.context.clone();
            (
                CreateState::Extending { details, id, variants },
                CreateAction::ExtendContext { context, variant_ids },
            )
        },
        (
            CreateState::Extending { details, id, variants },
            CreateEvent::Extended { contexts, cac_host },
        ) => match put_operations(&variants, contexts) {
            Ok(operations) => {
                let url: String = bulk_operations_url(cac_host);
                (
                    CreateState::Changing { details, id, variants },
                    CreateAction::SendChanges { url, operations },
                )
            },
            Err(e) => refuse(e),
        },
        (CreateState::Changing { details, id, variants }, CreateEvent::Changed(outcome)) => match read_reply(
            outcome,
        ) {
            Some(created) => {
                let variants: Vec<Variant> = note_context_ids(variants, &created);
                let experiment = NewExperiment {
                    id,
                    created_by: details.created_by.clone(),
                    name: details.name,
                    override_keys: details.override_keys,
                    traffic_percentage: 0,
                    status: ExperimentStatusType::CREATED,
                    context: details.context,
                    variants,
                    last_modified_by: details.created_by,
                };
                (CreateState::Storing, CreateAction::Store(experiment))
            },
            None => refuse(HttpError::internal("")),
        },
        (_, CreateEvent::Stored(outcome)) => match outcome {
            Ok(rows) => {
                let mut rows: Vec<R> = rows;
                let first: R = rows.remove(0);
                (CreateState::Done, CreateAction::Respond(Ok(first)))
            },
            Err(_) => refuse(HttpError::internal("Failed to create experiment")),
        },
        _ => vstd::pervasive::unreached(),
    }
}

/// One step of a machine: what happened, where that led, and what to do next.
pub struct CreateMove<R> {
    pub event: CreateEvent<R>,
    pub next: CreateState,
    pub action: CreateAction<R>,
}

/// The state in front of step `i` of a run.
pub open spec fn state_before<R>(run: Seq<CreateMove<R>>, i: int) -> CreateState {
    if i == 0 {
        CreateState::Start
    } else {
        run[i - 1].next
    }
}

/// The steps follow each other from the start.
pub open spec fn is_run<R>(run: Seq<CreateMove<R>>) -> bool {
    forall|i: int|
        0 <= i < run.len() ==> {
            &&& #[trigger] state_before(run, i).accepts(run[i].event)
            &&& create_step(state_before(run, i), run[i].event, run[i].next, run[i].action)
        }
}

proof fn lemma_run_order<R>(run: Seq<CreateMove<R>>)
    requires
        is_run(run),
    ensures
        run.len() <= 6,
        run.len() >= 1 ==> run[0].next is Validating || run[0].next is Done,
        run.len() >= 2 ==> run[0].next is Validating && (run[1].next is Numbering
            || run[1].next is Done),
        run.len() >= 3 ==> run[1].next is Numbering && run[2].next is Extending,
        run.len() >= 4 ==> run[3].next is Changing || run[3].next is Done,
        run.len() >= 5 ==> run[3].next is Changing && (run[4].next is Storing
            || run[4].next is Done),
        run.len() >= 6 ==> run[4].next is Storing && run[5].next is Done,
{
    if run.len() >= 1 {
        assert(state_before(run, 0).accepts(run[0].event));
    }
    if run.len() >= 2 {
        assert(state_before(run, 1).accepts(run[1].event));
    }
    if run.len() >= 3 {
        assert(state_before(run, 2).accepts(run[2].event));
    }
    if run.len() >= 4 {
        assert(state_before(run, 3).accepts(run[3].event));
    }
    if run.len() >= 5 {
        assert(state_before(run, 4).accepts(run[4].event));
    }
    if run.len() >= 6 {
        assert(state_before(run, 5).accepts(run[5].event));
    }
    if run.len() >= 7 {
        assert(state_before(run, 6).accepts(run[6].event));
    }
}

/// Contexts are created only for a request that keeps all rules and was found valid, and they are
/// those of the requested variants, under the ids that these have within all experiments.
pub proof fn law_contexts_need_valid_request<R>(run: Seq<CreateMove<R>>, i: int)
    requires
        is_run(run),
        0 <= i < run.len(),
        run[i].action is SendChanges,
    ensures
        i == 3,
        ({
            &&& run[0].event matches CreateEvent::Requested { details, variants, .. }
            &&& has_valid_types(variant_views(variants@))
            &&& covers_keys(variant_views(variants@), texts(details.override_keys@))
            &&& details.context@ is Object
            &&& run[1].event == CreateEvent::<R>::Validated(Ok(true))
            &&& run[2].event matches CreateEvent::Numbered(id)
            &&& run[2].action matches CreateAction::ExtendContext { context, .. }
            &&& context@ == details.context@
            &&& run[3].event matches CreateEvent::Extended { contexts, .. }
            &&& all_objects(context_views(contexts@))
            &&& action_views(run[3].action->operations@) == put_actions(
                all_numbered(variant_views(variants@), id as int),
                context_views(contexts@),
            )
        }),
{
    lemma_run_order(run);
    assert(state_before(run, 0).accepts(run[0].event));
    if run.len() >= 2 {
        assert(state_before(run, 1).accepts(run[1].event));
    }
    if run.len() >= 3 {
        assert(state_before(run, 2).accepts(run[2].event));
    }
    assert(state_before(run, i).accepts(run[i].event));
}

/// An experiment is stored only after a reply that the contexts of its variants were created
/// successfully, and it is the requested one: with no traffic yet, and with each variant under its id within all experiments
/// and with the ids of what was created for it.
pub proof fn law_stored_as_requested<R>(run: Seq<CreateMove<R>>, i: int)
    requires
        is_run(run),
        0 <= i < run.len(),
        run[i].action is Store,
    ensures
        i == 4,
        ({
            &&& run[0].event matches CreateEvent::Requested { details, variants, .. }
            &&& run[2].event matches CreateEvent::Numbered(id)
            &&& run[4].event matches CreateEvent::Changed(Ok(reply))
            &&& 200 <= reply.status < 300
            &&& reply.created matches Some(created)
            &&& is_new_experiment(
                run[4].action->Store_0,
                details,
                id,
                with_context_ids(all_numbered(variant_views(variants@), id as int), created@),
            )
        }),
{
    lemma_run_order(run);
    assert(state_before(run, 0).accepts(run[0].event));
    if run.len() >= 2 {
        assert(state_before(run, 1).accepts(run[1].event));
    }
    if run.len() >= 3 {
        assert(state_before(run, 2).accepts(run[2].event));
    }
    if run.len() >= 4 {
        assert(state_before(run, 3).accepts(run[3].event));
    }
    assert(state_before(run, i).accepts(run[i].event));
}

/// When creating the contexts was no success (the changes could not be sent, the status of the
/// reply is none of success, or the reply cannot be read), the request fails with an internal error,
/// and no experiment is stored.
pub proof fn law_failed_contexts_end<R>(
    state: CreateState,
    outcome: Result<ContextsReply, ()>,
    next: CreateState,
    action: CreateAction<R>,
)
    requires
        state.accepts(CreateEvent::<R>::Changed(outcome)),
        create_step(state, CreateEvent::<R>::Changed(outcome), next, action),
        outcome matches Ok(reply) ==> !(200 <= reply.status < 300) || reply.created is None,
    ensures
        refuses(next, action, 500, ""@),
        !(action is Store),
{
}

/// A run ends after at most six steps, and exactly with the answer.
pub proof fn law_create_ends<R>(run: Seq<CreateMove<R>>, i: int)
    requires
        is_run(run),
        0 <= i < run.len(),
    ensures
        run.len() <= 6,
        run[i].action is Respond <==> run[i].next is Done,
        run[i].next is Done ==> i == run.len() - 1,
{
    lemma_run_order(run);
    assert(state_before(run, i).accepts(run[i].event));
    if i + 1 < run.len() {
        assert(state_before(run, i + 1).accepts(run[i + 1].event));
    }
}

/// The id of a variant within all experiments determines the experiment and the variant's own id.
pub proof fn law_variant_ids_unique(
    experiment: int,
    id: Seq<char>,
    other_experiment: int,
    other_id: Seq<char>,
)
    requires
        variant_id(experiment, id) == variant_id(other_experiment, other_id),
    ensures
        experiment == other_experiment,
        id == other_id,
{
    reveal_strlit("-");
    let a = signed_decimal(experiment);
    let b = signed_decimal(other_experiment);
    let whole = variant_id(experiment, id);
    lemma_signed_decimal_dash(experiment);
    lemma_signed_decimal_dash(other_experiment);
    assert(whole[a.len() as int] == '-');
    assert(variant_id(other_experiment, other_id)[b.len() as int] == '-');
    if a.len() < b.len() {
        assert(b[a.len() as int] == variant_id(other_experiment, other_id)[a.len() as int]);
    } else if b.len() < a.len() {
        assert(a[b.len() as int] == whole[b.len() as int]);
    }
    assert(a =~= whole.take(a.len() as int));
    assert(b =~= variant_id(other_experiment, other_id).take(b.len() as int));
    law_signed_decimal_injective(experiment, other_experiment);
    assert(id =~= whole.skip(a.len() as int + 1));
    assert(other_id =~= variant_id(other_experiment, other_id).skip(b.len() as int + 1));
}

proof fn lemma_count_none(variants: Seq<VariantView>, variant_type: VariantType)
    ensures
        count_of(variants, variant_type) == 0 <==> forall|j: int|
            0 <= j < variants.len() ==> (#[trigger] variants[j]).variant_type != variant_type,
    decreases variants.len(),
{
    if variants.len() > 0 {
        let front = variants.drop_last();
        let last = variants.len() - 1;
        lemma_count_none(front, variant_type);
        assert(forall|j: int| 0 <= j < front.len() ==> #[trigger] front[j] == variants[j]);
        if forall|j: int|
            0 <= j < variants.len() ==> (#[trigger] variants[j]).variant_type != variant_type {
            assert(variants[last].variant_type != variant_type);
            assert forall|j: int| 0 <= j < front.len() implies (#[trigger] front[j]).variant_type
                != variant_type by {
                assert(variants[j].variant_type != variant_type);
            }
        }
        if count_of(variants, variant_type) == 0 {
            assert forall|j: int| 0 <= j < variants.len() implies (
            #[trigger] variants[j]).variant_type != variant_type by {
                if j < last {
                    assert(front[j].variant_type != variant_type);
                }
            }
        }
    }
}

proof fn lemma_count_one(variants: Seq<VariantView>, variant_type: VariantType)
    ensures
        count_of(variants, variant_type) == 1 <==> exists|c: int| #[trigger]
            only_one_at(variants, variant_type, c),
    decreases variants.len(),
{
    if variants.len() > 0 {
        let front = variants.drop_last();
        let last = variants.len() - 1;
        lemma_count_one(front, variant_type);
        lemma_count_none(front, variant_type);
        assert(forall|j: int| 0 <= j < front.len() ==> #[trigger] front[j] == variants[j]);
        if count_of(variants, variant_type) == 1 {
            if variants[last].variant_type == variant_type {
                assert forall|j: int| 0 <= j < variants.len() && j != last implies (
                #[trigger] variants[j]).variant_type != variant_type by {
                    assert(front[j].variant_type != variant_type);
                }
                assert(only_one_at(variants, variant_type, last));
            } else {
                let c = choose|c: int| #[trigger] only_one_at(front, variant_type, c);
                assert(front[c] == variants[c]);
                assert forall|j: int| 0 <= j < variants.len() && j != c implies (
                #[trigger] variants[j]).variant_type != variant_type by {
                    if j < last {
                        assert(front[j].variant_type != variant_type);
                    }
                }
                assert(only_one_at(variants, variant_type, c));
            }
        }
        if exists|c: int| #[trigger] only_one_at(variants, variant_type, c) {
            let c = choose|c: int| #[trigger] only_one_at(variants, variant_type, c);
            if c == last {
                assert forall|j: int| 0 <= j < front.len() implies (
                #[trigger] front[j]).variant_type != variant_type by {
                    assert(variants[j].variant_type != variant_type);
                }
            } else {
                assert(variants[last].variant_type != variant_type);
                assert(front[c] == variants[c]);
                assert forall|j: int| 0 <= j < front.len() && j != c implies (
                #[trigger] front[j]).variant_type != variant_type by {
                    assert(variants[j].variant_type != variant_type);
                }
                assert(only_one_at(front, variant_type, c));
            }
        }
    }
}

spec fn only_one_at(variants: Seq<VariantView>, variant_type: VariantType, c: int) -> bool {
    &&& 0 <= c < variants.len()
    &&& variants[c].variant_type == variant_type
    &&& forall|j: int|
        0 <= j < variants.len() && j != c ==> (#[trigger] variants[j]).variant_type != variant_type
}

/// The variant at `control` is the only control variant.
pub open spec fn is_only_control(variants: Seq<Variant>, control: int) -> bool {
    &&& 0 <= control < variants.len()
    &&& variants[control].variant_type == VariantType::CONTROL
    &&& forall|j: int|
        0 <= j < variants.len() && j != control ==> (#[trigger] variants[j]).variant_type
            == VariantType::EXPERIMENTAL
}

/// The overrides hold a member with the key.
pub open spec fn holds_key(overrides: JsonMap, key: Seq<char>) -> bool {
    exists|m: int| 0 <= m < overrides.entries@.len() && (#[trigger] overrides.entries@[m]).0@ == key
}

proof fn lemma_types(variants: Seq<Variant>)
    ensures
        has_valid_types(variant_views(variants)) <==> variants.len() >= 2 && exists|c: int| #[trigger]
            is_only_control(variants, c),
{
    let views = variant_views(variants);
    lemma_count_one(views, VariantType::CONTROL);
    lemma_count_none(views, VariantType::EXPERIMENTAL);
    assert(forall|j: int| 0 <= j < variants.len() ==> #[trigger] views[j] == variants[j]@);
    if has_valid_types(views) {
        let c = choose|c: int| #[trigger] only_one_at(views, VariantType::CONTROL, c);
        assert(variants[c].variant_type == VariantType::CONTROL);
        assert forall|j: int| 0 <= j < variants.len() && j != c implies (
        #[trigger] variants[j]).variant_type == VariantType::EXPERIMENTAL by {
            assert(views[j].variant_type != VariantType::CONTROL);
        }
        assert(is_only_control(variants, c));
        if variants.len() < 2 {
            assert forall|j: int| 0 <= j < views.len() implies (#[trigger] views[j]).variant_type
                != VariantType::EXPERIMENTAL by {
                assert(j == c);
            }
        }
    }
    if variants.len() >= 2 && exists|c: int| #[trigger] is_only_control(variants, c) {
        let c = choose|c: int| #[trigger] is_only_control(variants, c);
        assert(views[c].variant_type == VariantType::CONTROL);
        assert forall|j: int| 0 <= j < views.len() && j != c implies (
        #[trigger] views[j]).variant_type != VariantType::CONTROL by {
            assert(variants[j].variant_type == VariantType::EXPERIMENTAL);
        }
        assert(only_one_at(views, VariantType::CONTROL, c));
        let e = if c == 0 {
            1int
        } else {
            0int
        };
        assert(variants[e].variant_type == VariantType::EXPERIMENTAL);
        assert(views[e].variant_type == VariantType::EXPERIMENTAL);
    }
}

proof fn lemma_coverage(variants: Seq<Variant>, keys: Seq<String>)
    ensures
        covers_keys(variant_views(variants), texts(keys)) <==> forall|i: int, k: int|
            0 <= i < variants.len() && 0 <= k < keys.len() ==> #[trigger] holds_key(
                variants[i].overrides,
                keys[k]@,
            ),
{
    let views = variant_views(variants);
    assert forall|i: int, k: int| 0 <= i < variants.len() && 0 <= k < keys.len() implies (lookup(
        variants[i].overrides@,
        keys[k]@,
    ) is Some <==> #[trigger] holds_key(variants[i].overrides, keys[k]@)) by {
        let map = variants[i].overrides;
        law_lookup_finds_keys(map@, keys[k]@);
        if lookup(map@, keys[k]@) is Some {
            let m = choose|m: int| 0 <= m < map@.len() && (#[trigger] map@[m]).0 == keys[k]@;
            assert(map.entries@[m].0@ == keys[k]@);
        }
        if holds_key(map, keys[k]@) {
            let m = choose|m: int|
                0 <= m < map.entries@.len() && (#[trigger] map.entries@[m]).0@ == keys[k]@;
            assert(map@[m].0 == keys[k]@);
        }
    }
    if covers_keys(views, texts(keys)) {
        assert forall|i: int, k: int|
            0 <= i < variants.len() && 0 <= k < keys.len() implies #[trigger] holds_key(
            variants[i].overrides,
            keys[k]@,
        ) by {
            assert(overrides_all(views[i].overrides, texts(keys)));
            assert(lookup(views[i].overrides, texts(keys)[k]) is Some);
        }
    }
    if forall|i: int, k: int|
        0 <= i < variants.len() && 0 <= k < keys.len() ==> #[trigger] holds_key(
            variants[i].overrides,
            keys[k]@,
        ) {
        assert forall|i: int| 0 <= i < views.len() implies overrides_all(
            (#[trigger] views[i]).overrides,
            texts(keys),
        ) by {
            assert forall|k: int| 0 <= k < texts(keys).len() implies lookup(
                views[i].overrides,
                #[trigger] texts(keys)[k],
            ) is Some by {
                assert(holds_key(variants[i].overrides, keys[k]@));
            }
        }
    }
}

/// A request is passed on as it is exactly when one of two or more variants is the only control
/// variant, every variant holds every named key among its overrides, and the context is an object.
/// Otherwise it is refused for the first of these that fails.
pub proof fn law_request_is_checked<R>(
    details: ExperimentDetails,
    variants: Vec<Variant>,
    types_complaint: String,
    next: CreateState,
    action: CreateAction<R>,
)
    requires
        create_step(
            CreateState::Start,
            CreateEvent::<R>::Requested { details, variants, types_complaint },
            next,
            action,
        ),
    ensures
        ({
            let typed = variants@.len() >= 2 && exists|c: int| #[trigger]
                is_only_control(variants@, c);
            let covered = forall|i: int, k: int|
                0 <= i < variants@.len() && 0 <= k < details.override_keys@.len()
                    ==> #[trigger] holds_key(variants@[i].overrides, details.override_keys@[k]@);
            &&& typed && covered && details.context is Object ==> next == (
            CreateState::Validating { details, variants }) && action is Validate
            &&& !typed ==> refuses(next, action, 400, types_complaint@)
            &&& typed && !covered ==> refuses(
                next,
                action,
                400,
                "all variants should contain the keys mentioned override_keys"@,
            )
            &&& typed && covered && !(details.context is Object) ==> refuses(
                next,
                action,
                400,
                "context should be map of key value pairs"@,
            )
        }),
{
    lemma_types(variants@);
    lemma_coverage(variants@, details.override_keys@);
    assert(details.context@ is Object <==> details.context is Object);
}

/// A request that was found valid goes on unchanged; one that was not, or where that could not be
/// found out, ends.
pub proof fn law_validity_decides<R>(
    details: ExperimentDetails,
    variants: Vec<Variant>,
    outcome: Result<bool, ()>,
    next: CreateState,
    action: CreateAction<R>,
)
    requires
        create_step(
            CreateState::Validating { details, variants },
            CreateEvent::<R>::Validated(outcome),
            next,
            action,
        ),
    ensures
        outcome == Ok::<bool, ()>(true) ==> next == (CreateState::Numbering { details, variants })
            && action is MakeId,
        outcome == Ok::<bool, ()>(false) ==> refuses(next, action, 400, "invalid experiment config"@),
        outcome is Err ==> refuses(next, action, 500, ""@),
{
}

/// Each variant's dimension is asked for with the id made of the experiment's id, a dash and the
/// variant's own id, to be added to the requested context; one id per variant and in their order.
pub proof fn law_variants_are_numbered<R>(
    details: ExperimentDetails,
    variants: Vec<Variant>,
    id: i64,
    next: CreateState,
    action: CreateAction<R>,
    k: int,
)
    requires
        create_step(
            CreateState::Numbering { details, variants },
            CreateEvent::<R>::Numbered(id),
            next,
            action,
        ),
        0 <= k < variants@.len(),
    ensures
        ({
            &&& action matches CreateAction::ExtendContext { context, variant_ids }
            &&& context@ == details.context@
            &&& variant_ids@.len() == variants@.len()
            &&& variant_ids@[k]@ == signed_decimal(id as int) + "-"@ + variants@[k].id@
            &&& next matches CreateState::Extending { details: d, id: n, variants: v }
            &&& d == details
            &&& n == id
            &&& v@.len() == variants@.len()
            &&& v@[k].id@ == signed_decimal(id as int) + "-"@ + variants@[k].id@
            &&& v@[k].variant_type == variants@[k].variant_type
            &&& v@[k].overrides@ == variants@[k].overrides@
        }),
{
    let ids = action->variant_ids@;
    let renamed = next->Extending_variants@;
    assert(texts(ids).len() == ids.len());
    assert(texts(ids)[k] == ids[k]@);
    assert(variant_views(renamed).len() == renamed.len());
    assert(variant_views(renamed)[k] == renamed[k]@);
    assert(variant_views(variants@)[k] == variants@[k]@);
}

/// Every variant's context gets that variant's own overrides: when changes are sent, change `k` is to
/// store the `k`-th extended context with the overrides of the `k`-th requested variant, and there is
/// one change per requested variant.
pub proof fn law_each_context_gets_its_overrides<R>(run: Seq<CreateMove<R>>, i: int, k: int)
    requires
        is_run(run),
        0 <= i < run.len(),
        run[i].action is SendChanges,
    ensures
        ({
            &&& run[0].event matches CreateEvent::Requested { variants, .. }
            &&& run[3].event matches CreateEvent::Extended { contexts, cac_host }
            &&& run[i].action matches CreateAction::SendChanges { url, operations }
            &&& url@ == cac_host@ + "/context/bulk-operations"@
            &&& contexts@.len() == variants@.len()
            &&& operations@.len() == variants@.len()
            &&& 0 <= k < variants@.len() ==> ({
                &&& contexts@[k] matches Some(Json::Object(extended))
                &&& operations@[k] matches ContextAction::PUT(request)
                &&& request.context@ == extended@
                &&& request.overrides@ == variants@[k].overrides@
            })
        }),
{
    law_contexts_need_valid_request(run, i);
    let variants = run[0].event->variants@;
    let contexts = run[3].event->contexts@;
    let operations = run[i].action->operations@;
    assert(state_before(run, 2).accepts(run[2].event));
    assert(state_before(run, 1).accepts(run[1].event));
    assert(state_before(run, 0).accepts(run[0].event));
    assert(state_before(run, 3).accepts(run[3].event));
    let renamed = run[2].next->Extending_variants@;
    assert(variant_views(renamed).len() == renamed.len());
    assert(variant_views(variants).len() == variants.len());
    assert(action_views(operations).len() == operations.len());
    if 0 <= k < variants.len() {
        assert(action_views(operations)[k] == operations[k]@);
        assert(variant_views(variants)[k] == variants[k]@);
        assert(context_views(contexts)[k] matches Some(JsonView::Object(_)));
        assert(contexts[k] is Some);
        assert(contexts[k]->0@ is Object);
    }
}

/// Contexts are created when every variant's context was extended to an object; when one was not,
/// the request ends.
pub proof fn law_extended_contexts_are_sent<R>(
    details: ExperimentDetails,
    id: i64,
    variants: Vec<Variant>,
    contexts: Vec<Option<Json>>,
    cac_host: String,
    next: CreateState,
    action: CreateAction<R>,
)
    requires
        create_step(
            CreateState::Extending { details, id, variants },
            CreateEvent::<R>::Extended { contexts, cac_host },
            next,
            action,
        ),
    ensures
        (forall|k: int|
            0 <= k < contexts@.len() ==> #[trigger] contexts@[k] matches Some(Json::Object(_)))
            ==> next == (CreateState::Changing { details, id, variants }) && action is SendChanges,
        !(forall|k: int|
            0 <= k < contexts@.len() ==> #[trigger] contexts@[k] matches Some(Json::Object(_)))
            ==> refuses(next, action, 500, ""@),
{
    let views = context_views(contexts@);
    assert forall|k: int| 0 <= k < contexts@.len() implies (contexts@[k] matches Some(
        Json::Object(_),
    )) == (#[trigger] views[k] matches Some(JsonView::Object(_))) by {
        if contexts@[k] is Some {
            assert(contexts@[k]->0@ is Object <==> contexts@[k]->0 is Object);
        }
    }
    if all_objects(views) {
        assert forall|k: int| 0 <= k < contexts@.len() implies #[trigger] contexts@[k] matches Some(
            Json::Object(_),
        ) by {
            assert(views[k] matches Some(JsonView::Object(_)));
        }
    } else {
        let k = choose|k: int|
            0 <= k < views.len() && !(#[trigger] views[k] matches Some(JsonView::Object(_)));
        assert(!(contexts@[k] matches Some(Json::Object(_))));
    }
}

/// What is stored is what was asked for, part by part: the experiment under the id that was made,
/// created and last modified by who asked, with no traffic and as just created; and each variant, in
/// order, with its type and its overrides, its id within all experiments, and the ids that were
/// created for it, as far as there are any.
pub proof fn law_stored_part_by_part<R>(run: Seq<CreateMove<R>>, i: int, k: int)
    requires
        is_run(run),
        0 <= i < run.len(),
        run[i].action is Store,
    ensures
        ({
            &&& run[0].event matches CreateEvent::Requested { details, variants, .. }
            &&& run[2].event matches CreateEvent::Numbered(id)
            &&& run[4].event matches CreateEvent::Changed(Ok(reply))
            &&& reply.created matches Some(created)
            &&& run[i].action matches CreateAction::Store(stored)
            &&& stored.id == id
            &&& stored.name@ == details.name@
            &&& stored.created_by@ == details.created_by@
            &&& stored.last_modified_by@ == details.created_by@
            &&& stored.override_keys@ == details.override_keys@
            &&& stored.context@ == details.context@
            &&& stored.traffic_percentage == 0
            &&& stored.status == ExperimentStatusType::CREATED
            &&& created@.len() <= variants@.len()
            &&& stored.variants@.len() == variants@.len()
            &&& 0 <= k < variants@.len() ==> ({
                let variant = stored.variants@[k];
                &&& variant.id@ == signed_decimal(id as int) + "-"@ + variants@[k].id@
                &&& variant.variant_type == variants@[k].variant_type
                &&& variant.overrides@ == variants@[k].overrides@
                &&& k < created@.len() ==> ({
                    &&& variant.context_id matches Some(context_id)
                    &&& context_id@ == created@[k].context_id@
                    &&& variant.override_id matches Some(override_id)
                    &&& override_id@ == created@[k].override_id@
                })
                &&& k >= created@.len() ==> ({
                    &&& optional_text(variant.context_id) == optional_text(variants@[k].context_id)
                    &&& optional_text(variant.override_id) == optional_text(
                        variants@[k].override_id,
                    )
                })
            })
        }),
{
    law_stored_as_requested(run, i);
    let variants = run[0].event->variants@;
    let stored = run[i].action->Store_0.variants@;
    assert(state_before(run, 4).accepts(run[4].event));
    assert(state_before(run, 3).accepts(run[3].event));
    assert(state_before(run, 2).accepts(run[2].event));
    lemma_run_order(run);
    assert(variant_views(stored).len() == stored.len());
    assert(variant_views(variants).len() == variants.len());
    assert(variant_views(run[2].next->Extending_variants@).len()
        == run[2].next->Extending_variants@.len());
    if 0 <= k < variants.len() {
        assert(variant_views(stored)[k] == stored[k]@);
        assert(variant_views(variants)[k] == variants[k]@);
    }
}

/// A success in creating the contexts leads to storing, and what was stored first is answered; a
/// failure to store ends the request.
pub proof fn law_created_contexts_are_stored<R>(
    details: ExperimentDetails,
    id: i64,
    variants: Vec<Variant>,
    reply: ContextsReply,
    changed: (CreateState, CreateAction<R>),
    outcome: Result<Vec<R>, ()>,
    stored: (CreateState, CreateAction<R>),
)
    requires
        create_step(
            CreateState::Changing { details, id, variants },
            CreateEvent::<R>::Changed(Ok(reply)),
            changed.0,
            changed.1,
        ),
        create_step(CreateState::Storing, CreateEvent::Stored(outcome), stored.0, stored.1),
    ensures
        200 <= reply.status <= 299 && reply.created is Some ==> changed.0 is Storing && changed.1
            is Store,
        outcome matches Ok(rows) ==> stored.0 is Done && stored.1 == CreateAction::Respond(
            Ok::<R, HttpError>(rows@[0]),
        ),
        outcome is Err ==> refuses(stored.0, stored.1, 500, "Failed to create experiment"@),
{
}

/// The machine takes every outcome of the action that it asked for, except lists that are longer, or
/// shorter, than what they are about.
pub proof fn law_create_takes_outcomes<R>(
    requested: CreateEvent<R>,
    details: ExperimentDetails,
    id: i64,
    variants: Vec<Variant>,
    valid: Result<bool, ()>,
    contexts: Vec<Option<Json>>,
    cac_host: String,
    reply: Result<ContextsReply, ()>,
    outcome: Result<Vec<R>, ()>,
)
    requires
        requested is Requested,
        contexts@.len() == variants@.len(),
        (reply matches Ok(r) && (r.created matches Some(created) && 200 <= r.status <= 299))
            ==> reply->Ok_0.created->0@.len() <= variants@.len(),
        outcome matches Ok(rows) ==> rows@.len() >= 1,
    ensures
        CreateState::Start.accepts(requested),
        (CreateState::Validating { details, variants }).accepts(
            CreateEvent::<R>::Validated(valid),
        ),
        (CreateState::Numbering { details, variants }).accepts(CreateEvent::<R>::Numbered(id)),
        (CreateState::Extending { details, id, variants }).accepts(
            CreateEvent::<R>::Extended { contexts, cac_host },
        ),
        (CreateState::Changing { details, id, variants }).accepts(CreateEvent::<R>::Changed(reply)),
        CreateState::Storing.accepts(CreateEvent::Stored(outcome)),
{
}

/// A refusal says one thing: its status and its text are those of the answer.
pub proof fn law_refusal_says_one_thing<R>(
    next: CreateState,
    action: CreateAction<R>,
    status: u16,
    text: Seq<char>,
    other_status: u16,
    other_text: Seq<char>,
)
    requires
        refuses(next, action, status, text),
    ensures
        next is Done,
        action is Respond,
        refuses(next, action, other_status, other_text) ==> status == other_status && text
            == other_text,
{
}

} // verus!
