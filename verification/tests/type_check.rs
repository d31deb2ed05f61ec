use superposition_service::error::{ErrorBody, HttpError};
use superposition_service::json::{Json, JsonMap};
use superposition_service::type_check::{
    host_of, validate_inputs, CheckAction, CheckEvent, CheckState, TypeValidationResponse,
};

fn begin(host_table: &str, tenant: &str) -> (CheckState, CheckAction) {
    validate_inputs(
        CheckState::Start,
        CheckEvent::Begin {
            host_table: host_table.to_string(),
            tenant: tenant.to_string(),
            key: "fare".to_string(),
            value: Json::Bool(true),
        },
    )
}

fn message(e: HttpError) -> String {
    assert_eq!(e.status, 500);
    match e.body {
        ErrorBody::Json(Json::Object(JsonMap { mut entries })) => {
            assert_eq!(entries.len(), 1);
            match entries.remove(0) {
                (name, Json::Str(text)) => {
                    assert_eq!(name, "message");
                    text
                }
                _ => panic!("no text"),
            }
        }
        _ => panic!("no message"),
    }
}

fn refusal(step: (CheckState, CheckAction)) -> String {
    match step {
        (CheckState::Done, CheckAction::Finish(Err(e))) => message(e),
        _ => panic!("expected a refusal"),
    }
}

#[test]
fn tenant_with_host_is_checked() {
    match begin("{\"mjos\": \"http://host\", \"other\": \"x\"}", "mjos") {
        (CheckState::Calling, CheckAction::Post { url, payload }) => {
            assert_eq!(url, "http://host/internal/typeCheck");
            let mut members = JsonMap::new();
            members.push("key".to_string(), Json::Str("fare".to_string()));
            members.push("value".to_string(), Json::Bool(true));
            assert_eq!(payload, Json::Object(members));
        }
        _ => panic!("expected a call"),
    }
}

#[test]
fn later_host_of_a_tenant_counts() {
    match begin("{\"a\": \"one\", \"a\": \"two\"}", "a") {
        (CheckState::Calling, CheckAction::Post { url, .. }) => {
            assert_eq!(url, "two/internal/typeCheck");
        }
        _ => panic!("expected a call"),
    }
}

#[test]
fn tenant_without_host_passes() {
    assert!(matches!(
        begin("{\"other\": \"x\"}", "mjos"),
        (CheckState::Done, CheckAction::Finish(Ok(true)))
    ));
    assert!(matches!(
        begin("{}", ""),
        (CheckState::Done, CheckAction::Finish(Ok(true)))
    ));
}

#[test]
fn host_in_the_table() {
    let entries = vec![
        ("a".to_string(), "one".to_string()),
        ("b".to_string(), "two".to_string()),
    ];
    assert_eq!(host_of(&entries, "b").as_deref(), Some("two"));
    assert_eq!(host_of(&entries, "c"), None);
    assert_eq!(host_of(&vec![], "a"), None);
}

#[test]
fn unreadable_host_table() {
    for table in ["", "[]", "{\"a\": 1}", "{\"a\": \"x\"} y"] {
        assert!(matches!(
            begin(table, "a"),
            (CheckState::Done, CheckAction::BadHostTable)
        ));
    }
}

#[test]
fn failed_call() {
    assert_eq!(
        refusal(validate_inputs(CheckState::Calling, CheckEvent::Called(Err(())))),
        "Failed to call nammayatri backend"
    );
}

#[test]
fn only_status_200_is_decoded() {
    assert!(matches!(
        validate_inputs(CheckState::Calling, CheckEvent::Called(Ok(200))),
        (CheckState::Decoding, CheckAction::Decode)
    ));
    assert_eq!(
        refusal(validate_inputs(CheckState::Calling, CheckEvent::Called(Ok(201)))),
        "Failed to decode response from nammayatri backend, errorCode: 201 Created"
    );
    assert_eq!(
        refusal(validate_inputs(CheckState::Calling, CheckEvent::Called(Ok(404)))),
        "Failed to decode response from nammayatri backend, errorCode: 404 Not Found"
    );
    assert_eq!(
        refusal(validate_inputs(CheckState::Calling, CheckEvent::Called(Ok(999)))),
        "Failed to decode response from nammayatri backend, errorCode: 999 <unknown status code>"
    );
}

#[test]
fn decoded_answer_decides() {
    for result in [true, false] {
        match validate_inputs(
            CheckState::Decoding,
            CheckEvent::Decoded(Ok(TypeValidationResponse { result })),
        ) {
            (CheckState::Done, CheckAction::Finish(Ok(outcome))) => assert_eq!(outcome, result),
            _ => panic!("expected an outcome"),
        }
    }
}

#[test]
fn undecodable_answer() {
    assert_eq!(
        refusal(validate_inputs(
            CheckState::Decoding,
            CheckEvent::Decoded(Err("bad json".to_string()))
        )),
        "Failed to decode result from nammayatri backend bad json"
    );
}
