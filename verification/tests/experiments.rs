use superposition_service::error::{ErrorBody, HttpError};
use superposition_service::experiments::conclude::{
    conclude, plan_conclusion, ConcludeAction, ConcludeEvent, ConcludeState, StoredExperiment,
};
use superposition_service::experiments::create::{
    check_variant_types, check_variants_override_coverage, create, ContextPutResp, ContextsReply,
    CreateAction, CreateEvent, CreateState, ExperimentDetails,
};
use superposition_service::experiments::ramp::{
    check_ramp, ramp, RampAction, RampEvent, RampState, RampedExperiment,
};
use superposition_service::experiments::types::{
    bulk_operations_url, ContextAction, ExperimentStatusType, Fetched, Variant, VariantType,
};
use superposition_service::json::{Json, JsonMap};

fn map(key: &str, value: &str) -> JsonMap {
    JsonMap {
        entries: vec![(key.to_string(), Json::Str(value.to_string()))],
    }
}

fn variant(id: &str, context_id: Option<&str>) -> Variant {
    Variant {
        id: id.to_string(),
        variant_type: VariantType::EXPERIMENTAL,
        context_id: context_id.map(str::to_string),
        override_id: None,
        overrides: map("fare", id),
    }
}

fn refused(e: HttpError, status: u16, text: &str) {
    assert_eq!(
        e,
        HttpError {
            status,
            body: ErrorBody::Text(text.to_string())
        }
    );
}

fn running(variants: Option<Vec<Variant>>) -> StoredExperiment {
    StoredExperiment {
        status: ExperimentStatusType::INPROGRESS,
        context: Json::Object(map("city", "x")),
        variants,
    }
}

#[test]
fn where_changes_are_sent() {
    assert_eq!(
        bulk_operations_url("http://cac".to_string()),
        "http://cac/context/bulk-operations"
    );
}

#[test]
fn winner_moves_and_others_go() {
    let operations = plan_conclusion(
        running(Some(vec![variant("a", Some("ctx-a")), variant("b", Some("ctx-b"))])),
        "b",
    )
    .unwrap();
    assert_eq!(operations.len(), 2);
    match &operations[0] {
        ContextAction::DELETE(id) => assert_eq!(id, "ctx-a"),
        _ => panic!("expected a removal"),
    }
    match &operations[1] {
        ContextAction::MOVE(id, request) => {
            assert_eq!(id, "ctx-b");
            assert_eq!(request.context, map("city", "x"));
            assert_eq!(request.overrides, map("fare", "b"));
        }
        _ => panic!("expected a move"),
    }
}

#[test]
fn every_variant_with_the_winners_id_moves() {
    let operations = plan_conclusion(
        running(Some(vec![variant("a", Some("1")), variant("a", Some("2"))])),
        "a",
    )
    .unwrap();
    assert!(operations.iter().all(|o| matches!(o, ContextAction::MOVE(_, _))));
}

#[test]
fn conclusions_that_are_refused() {
    let mut concluded = running(Some(vec![variant("a", Some("1"))]));
    concluded.status = ExperimentStatusType::CONCLUDED;
    refused(
        plan_conclusion(concluded, "a").unwrap_err(),
        400,
        "experiment is already concluded",
    );
    let mut no_object = running(Some(vec![variant("a", Some("1"))]));
    no_object.context = Json::Array(vec![]);
    refused(plan_conclusion(no_object, "a").unwrap_err(), 500, "");
    refused(plan_conclusion(running(None), "a").unwrap_err(), 500, "");
    refused(
        plan_conclusion(running(Some(vec![variant("a", Some("1")), variant("b", None)])), "a")
            .unwrap_err(),
        500,
        "",
    );
    refused(
        plan_conclusion(running(Some(vec![variant("a", None)])), "c").unwrap_err(),
        500,
        "",
    );
    refused(
        plan_conclusion(running(Some(vec![variant("a", Some("1"))])), "c").unwrap_err(),
        404,
        "winner varaint not found",
    );
    refused(
        plan_conclusion(running(Some(vec![])), "c").unwrap_err(),
        404,
        "winner varaint not found",
    );
}

fn fetched(experiment: Fetched<StoredExperiment>) -> (ConcludeState, ConcludeAction<u8>) {
    conclude(
        ConcludeState::Fetching,
        ConcludeEvent::Fetched {
            id: 77,
            experiment,
            winner_variant: "a".to_string(),
            cac_host: "http://cac".to_string(),
            concluded_by: "user@host".to_string(),
        },
    )
}

fn conclude_refused(step: (ConcludeState, ConcludeAction<u8>), status: u16, text: &str) {
    match step {
        (ConcludeState::Done, ConcludeAction::Respond(Err(e))) => refused(e, status, text),
        _ => panic!("expected a refusal"),
    }
}

#[test]
fn concluding_runs_to_its_end() {
    let state = match fetched(Fetched::Found(running(Some(vec![variant("a", Some("1"))])))) {
        (state, ConcludeAction::SendChanges { url, operations }) => {
            assert_eq!(url, "http://cac/context/bulk-operations");
            assert_eq!(operations.len(), 1);
            state
        }
        _ => panic!("expected changes"),
    };
    assert!(matches!(state, ConcludeState::Changing { .. }));
    let state = match conclude(state, ConcludeEvent::<u8>::Changed(Ok(204))) {
        (state, ConcludeAction::StoreStatus { id, status, last_modified_by }) => {
            assert_eq!(id, 77);
            assert_eq!(status, ExperimentStatusType::CONCLUDED);
            assert_eq!(last_modified_by, "user@host");
            state
        }
        _ => panic!("expected the status to be stored"),
    };
    match conclude(state, ConcludeEvent::Stored(Ok(7u8))) {
        (ConcludeState::Done, ConcludeAction::Respond(Ok(row))) => assert_eq!(row, 7),
        _ => panic!("expected an answer"),
    }
}

#[test]
fn concluding_fails_with_what_it_needs() {
    conclude_refused(fetched(Fetched::NotFound), 404, "experiment not found");
    conclude_refused(fetched(Fetched::Failed), 500, "something went wrong.");
    for outcome in [Err(()), Ok(199), Ok(300), Ok(500)] {
        conclude_refused(
            conclude(
                ConcludeState::Changing { id: 1, concluded_by: String::new() },
                ConcludeEvent::Changed(outcome),
            ),
            500,
            "",
        );
    }
    conclude_refused(
        conclude(ConcludeState::Storing, ConcludeEvent::Stored(Err(()))),
        500,
        "",
    );
}

fn details(context: Json) -> ExperimentDetails {
    ExperimentDetails {
        name: "try".to_string(),
        override_keys: vec!["fare".to_string()],
        context,
        created_by: "user@host".to_string(),
    }
}

fn control(id: &str) -> Variant {
    Variant {
        variant_type: VariantType::CONTROL,
        ..variant(id, None)
    }
}

fn requested(context: Json, variants: Vec<Variant>) -> (CreateState, CreateAction<u8>) {
    create(
        CreateState::Start,
        CreateEvent::Requested {
            details: details(context),
            variants,
            types_complaint: "wrong types".to_string(),
        },
    )
}

fn fine_variants() -> Vec<Variant> {
    vec![control("control"), variant("test", None)]
}

fn create_refused(step: (CreateState, CreateAction<u8>), status: u16, text: &str) {
    match step {
        (CreateState::Done, CreateAction::Respond(Err(e))) => refused(e, status, text),
        _ => panic!("expected a refusal"),
    }
}

fn object() -> Json {
    Json::Object(map("city", "x"))
}

fn without_overrides(mut v: Variant) -> Variant {
    v.overrides = map("other", "x");
    v
}

#[test]
fn types_of_variants() {
    assert!(check_variant_types(&fine_variants()));
    assert!(check_variant_types(&vec![variant("a", None), control("b"), variant("c", None)]));
    assert!(!check_variant_types(&vec![]));
    assert!(!check_variant_types(&vec![control("a")]));
    assert!(!check_variant_types(&vec![variant("a", None), variant("b", None)]));
    assert!(!check_variant_types(&vec![control("a"), control("b"), variant("c", None)]));
}

#[test]
fn keys_of_variants() {
    let keys = vec!["fare".to_string()];
    assert!(check_variants_override_coverage(&fine_variants(), &keys));
    assert!(check_variants_override_coverage(&fine_variants(), &vec![]));
    assert!(check_variants_override_coverage(&vec![], &keys));
    let lacking = vec![control("a"), without_overrides(variant("b", None))];
    assert!(!check_variants_override_coverage(&lacking, &keys));
    let more = vec!["fare".to_string(), "tip".to_string()];
    assert!(!check_variants_override_coverage(&fine_variants(), &more));
}

#[test]
fn requests_that_break_a_rule() {
    create_refused(
        requested(Json::Null, vec![without_overrides(control("a"))]),
        400,
        "wrong types",
    );
    create_refused(
        requested(Json::Null, vec![without_overrides(control("a")), variant("b", None)]),
        400,
        "all variants should contain the keys mentioned override_keys",
    );
    create_refused(
        requested(Json::Null, fine_variants()),
        400,
        "context should be map of key value pairs",
    );
}

fn numbered(id: i64) -> (CreateState, Vec<String>) {
    let (state, action) = requested(object(), fine_variants());
    assert!(matches!(action, CreateAction::Validate));
    let (state, action) = create(state, CreateEvent::<u8>::Validated(Ok(true)));
    assert!(matches!(action, CreateAction::MakeId));
    match create(state, CreateEvent::<u8>::Numbered(id)) {
        (state, CreateAction::ExtendContext { context, variant_ids }) => {
            assert_eq!(context, object());
            (state, variant_ids)
        }
        _ => panic!("expected the context to be extended"),
    }
}

#[test]
fn variants_are_numbered() {
    let (_, ids) = numbered(7036);
    assert_eq!(ids, vec!["7036-control".to_string(), "7036-test".to_string()]);
    let (_, ids) = numbered(-1);
    assert_eq!(ids, vec!["-1-control".to_string(), "-1-test".to_string()]);
}

#[test]
fn different_variants_have_different_ids() {
    let (_, first) = numbered(1);
    let (_, second) = numbered(11);
    assert!(first.iter().all(|id| !second.contains(id)));
    assert_ne!(first[0], first[1]);
}

#[test]
fn invalid_experiments_are_refused() {
    let (state, _) = requested(object(), fine_variants());
    create_refused(
        create(state, CreateEvent::Validated(Ok(false))),
        400,
        "invalid experiment config",
    );
    let (state, _) = requested(object(), fine_variants());
    create_refused(create(state, CreateEvent::Validated(Err(()))), 500, "");
}

#[test]
fn contexts_must_be_extended_to_objects() {
    for bad in [None, Some(Json::Bool(true))] {
        let (state, _) = numbered(5);
        create_refused(
            create(
                state,
                CreateEvent::Extended {
                    contexts: vec![Some(object()), bad],
                    cac_host: "h".to_string(),
                },
            ),
            500,
            "",
        );
    }
}

fn changing(id: i64) -> CreateState {
    let (state, _) = numbered(id);
    let contexts = vec![
        Some(Json::Object(map("variant", "c"))),
        Some(Json::Object(map("variant", "t"))),
    ];
    let event = CreateEvent::<u8>::Extended {
        contexts,
        cac_host: "http://cac".to_string(),
    };
    match create(state, event) {
        (state, CreateAction::SendChanges { url, operations }) => {
            assert_eq!(url, "http://cac/context/bulk-operations");
            assert_eq!(operations.len(), 2);
            match &operations[1] {
                ContextAction::PUT(request) => {
                    assert_eq!(request.context, map("variant", "t"));
                    assert_eq!(request.overrides, map("fare", "test"));
                }
                _ => panic!("expected a context to be stored"),
            }
            state
        }
        _ => panic!("expected changes"),
    }
}

fn reply(status: u16, created: Option<Vec<ContextPutResp>>) -> CreateEvent<u8> {
    CreateEvent::Changed(Ok(ContextsReply { status, created }))
}

#[test]
fn experiment_is_stored_as_requested() {
    let created = vec![ContextPutResp {
        context_id: "ctx".to_string(),
        override_id: "ovr".to_string(),
    }];
    let (state, action) = create(changing(9), reply(200, Some(created)));
    match action {
        CreateAction::Store(stored) => {
            assert_eq!(stored.id, 9);
            assert_eq!(stored.name, "try");
            assert_eq!(stored.created_by, "user@host");
            assert_eq!(stored.last_modified_by, "user@host");
            assert_eq!(stored.override_keys, vec!["fare".to_string()]);
            assert_eq!(stored.traffic_percentage, 0);
            assert_eq!(stored.status, ExperimentStatusType::CREATED);
            assert_eq!(stored.context, object());
            assert_eq!(stored.variants.len(), 2);
            assert_eq!(stored.variants[0].id, "9-control");
            assert_eq!(stored.variants[0].context_id.as_deref(), Some("ctx"));
            assert_eq!(stored.variants[0].override_id.as_deref(), Some("ovr"));
            assert_eq!(stored.variants[1].id, "9-test");
            assert_eq!(stored.variants[1].context_id, None);
            assert_eq!(stored.variants[1].overrides, map("fare", "test"));
        }
        _ => panic!("expected the experiment to be stored"),
    }
    match create(state, CreateEvent::Stored(Ok(vec![3u8, 4]))) {
        (CreateState::Done, CreateAction::Respond(Ok(row))) => assert_eq!(row, 3),
        _ => panic!("expected an answer"),
    }
}

#[test]
fn creating_fails_with_what_it_needs() {
    create_refused(create(changing(9), CreateEvent::Changed(Err(()))), 500, "");
    create_refused(create(changing(9), reply(200, None)), 500, "");
    for status in [199, 300, 404, 500] {
        create_refused(create(changing(9), reply(status, Some(vec![]))), 500, "");
    }
    assert!(matches!(
        create(changing(9), reply(299, Some(vec![]))),
        (CreateState::Storing, CreateAction::Store(_))
    ));
    create_refused(
        create(CreateState::Storing, CreateEvent::Stored(Err(()))),
        500,
        "Failed to create experiment",
    );
}

fn ramped(traffic_percentage: i32, variants: usize) -> RampedExperiment {
    RampedExperiment {
        status: ExperimentStatusType::CREATED,
        traffic_percentage,
        variants: Some((0..variants).map(|_| variant("v", None)).collect()),
    }
}

#[test]
fn shares_that_fit() {
    assert_eq!(check_ramp(ramped(0, 2), 50), Ok(50));
    assert_eq!(check_ramp(ramped(0, 3), 33), Ok(33));
    assert_eq!(check_ramp(ramped(50, 1), 100), Ok(100));
    assert_eq!(check_ramp(ramped(10, 2), 0), Ok(0));
}

#[test]
fn shares_that_do_not_fit() {
    refused(
        check_ramp(ramped(0, 2), 51).unwrap_err(),
        400,
        "The traffic_percentage cannot exceed 50",
    );
    refused(
        check_ramp(ramped(0, 3), 34).unwrap_err(),
        400,
        "The traffic_percentage cannot exceed 33",
    );
    refused(
        check_ramp(ramped(0, 101), 1).unwrap_err(),
        400,
        "The traffic_percentage cannot exceed 0",
    );
}

#[test]
fn other_refusals_to_ramp() {
    refused(
        check_ramp(ramped(20, 2), 20).unwrap_err(),
        400,
        "The traffic_percentage is same as provided",
    );
    let mut concluded = ramped(20, 2);
    concluded.status = ExperimentStatusType::CONCLUDED;
    refused(
        check_ramp(concluded, 99).unwrap_err(),
        400,
        "Experiment is already concluded",
    );
    let mut unreadable = ramped(20, 2);
    unreadable.variants = None;
    unreadable.status = ExperimentStatusType::CONCLUDED;
    refused(check_ramp(unreadable, 30).unwrap_err(), 500, "");
}

#[test]
fn shares_are_compared_by_their_lowest_byte() {
    assert_eq!(check_ramp(ramped(0, 2), 261), Ok(261));
    assert_eq!(check_ramp(ramped(0, 2), 0x1_8000_0001), Ok(-0x7fff_ffff));
    assert_eq!(check_ramp(ramped(-1, 1), 5), Ok(5));
    refused(
        check_ramp(ramped(-251, 1), 5).unwrap_err(),
        400,
        "The traffic_percentage is same as provided",
    );
    assert_eq!(check_ramp(ramped(0, 257), 100), Ok(100));
}

fn ramp_refused(step: (RampState, RampAction), status: u16, text: &str) {
    match step {
        (RampState::Done, RampAction::Respond(Err(e))) => refused(e, status, text),
        _ => panic!("expected a refusal"),
    }
}

fn ramp_fetched(experiment: Fetched<RampedExperiment>) -> (RampState, RampAction) {
    ramp(
        RampState::Fetching,
        RampEvent::Fetched {
            id: -12,
            experiment,
            requested: 40,
            requested_by: "user@host".to_string(),
        },
    )
}

#[test]
fn ramping_runs_to_its_end() {
    let state = match ramp_fetched(Fetched::Found(ramped(0, 2))) {
        (state, RampAction::Store { id, traffic_percentage, status, last_modified_by }) => {
            assert_eq!(id, -12);
            assert_eq!(last_modified_by, "user@host");
            assert_eq!(traffic_percentage, 40);
            assert_eq!(status, ExperimentStatusType::INPROGRESS);
            state
        }
        _ => panic!("expected the share to be stored"),
    };
    match ramp(state, RampEvent::Stored(Ok(1))) {
        (RampState::Done, RampAction::Respond(Ok(text))) => assert_eq!(
            text,
            "Traffic percentage has been updated for the experiment id : -12"
        ),
        _ => panic!("expected an answer"),
    }
}

#[test]
fn ramping_fails_with_what_it_needs() {
    ramp_refused(ramp_fetched(Fetched::NotFound), 404, "No results found");
    ramp_refused(ramp_fetched(Fetched::Failed), 500, "Something went wrong");
    ramp_refused(
        ramp_fetched(Fetched::Found(ramped(0, 3))),
        400,
        "The traffic_percentage cannot exceed 33",
    );
    for outcome in [Ok(0), Err(())] {
        ramp_refused(
            ramp(RampState::Storing { id: 1 }, RampEvent::Stored(outcome)),
            500,
            "Failed to update the traffic_percentage",
        );
    }
}

#[test]
fn created_experiment_can_be_concluded() {
    let created = ["1", "2"]
        .iter()
        .map(|n| ContextPutResp {
            context_id: format!("ctx-{n}"),
            override_id: format!("ovr-{n}"),
        })
        .collect();
    let stored = match create(changing(9), reply(200, Some(created))) {
        (_, CreateAction::Store(stored)) => stored,
        _ => panic!("expected the experiment to be stored"),
    };
    let experiment = StoredExperiment {
        status: stored.status,
        context: stored.context,
        variants: Some(stored.variants),
    };
    let operations = plan_conclusion(experiment, "9-control").unwrap();
    assert!(matches!(&operations[0], ContextAction::MOVE(id, _) if id == "ctx-1"));
    assert!(matches!(&operations[1], ContextAction::DELETE(id) if id == "ctx-2"));
}

#[test]
fn created_experiment_can_be_ramped() {
    for requested in 1..=50 {
        assert_eq!(check_ramp(ramped(0, 2), requested), Ok(requested as i32));
    }
}

#[test]
fn same_share_is_refused_the_second_time() {
    for requested in [40u64, 261, 0x1_8000_0001] {
        let share = check_ramp(ramped(0, 2), requested).unwrap();
        let mut after = ramped(share, 2);
        after.status = ExperimentStatusType::INPROGRESS;
        refused(
            check_ramp(after, requested).unwrap_err(),
            400,
            "The traffic_percentage is same as provided",
        );
    }
}

#[test]
fn concluded_experiment_is_final() {
    let mut concluded = running(Some(vec![variant("a", Some("1"))]));
    concluded.status = ExperimentStatusType::CONCLUDED;
    conclude_refused(
        fetched(Fetched::Found(concluded)),
        400,
        "experiment is already concluded",
    );
    let mut concluded = ramped(0, 2);
    concluded.status = ExperimentStatusType::CONCLUDED;
    ramp_refused(
        ramp_fetched(Fetched::Found(concluded)),
        400,
        "Experiment is already concluded",
    );
}
