use superposition_service::dimensions::{extract_dimensions, get_variable_name_and_value};
use superposition_service::error::AppError;
use superposition_service::json::{Json, JsonMap, JsonNumber};

fn text(s: &str) -> Json {
    Json::Str(s.to_string())
}

fn map(members: Vec<(&str, Json)>) -> JsonMap {
    JsonMap {
        entries: members.into_iter().map(|(k, v)| (k.to_string(), v)).collect(),
    }
}

fn object(members: Vec<(&str, Json)>) -> Json {
    Json::Object(map(members))
}

fn variable(name: &str) -> Json {
    object(vec![("var", text(name))])
}

fn equals(name: &str, value: Json) -> Json {
    object(vec![("==", Json::Array(vec![variable(name), value]))])
}

fn complaint<T>(r: Result<T, AppError>) -> String {
    match r {
        Err(AppError::BadArgument(text)) => text,
        _ => panic!("expected a complaint"),
    }
}

#[test]
fn variable_comes_first() {
    let operands = vec![variable("city"), text("Bangalore")];
    assert_eq!(get_variable_name_and_value(&operands), Ok(("city", &text("Bangalore"))));
}

#[test]
fn variable_comes_second() {
    let operands = vec![text("Bangalore"), variable("city")];
    assert_eq!(get_variable_name_and_value(&operands), Ok(("city", &text("Bangalore"))));
}

#[test]
fn variable_comes_third() {
    let operands = vec![Json::Null, text("x"), variable("city")];
    assert_eq!(get_variable_name_and_value(&operands), Ok(("city", &text("x"))));
}

#[test]
fn first_of_two_variables_counts() {
    let operands = vec![variable("a"), variable("b")];
    assert_eq!(get_variable_name_and_value(&operands), Ok(("a", &variable("b"))));
}

#[test]
fn operands_without_variable() {
    let expected = "Failed to get variable name from operands list. Ensure the context provided obeys the rules of JSON logic";
    assert_eq!(complaint(get_variable_name_and_value(&[])), expected);
    let operands = vec![text("var"), object(vec![("other", text("a"))])];
    assert_eq!(complaint(get_variable_name_and_value(&operands)), expected);
}

#[test]
fn variable_name_must_be_text() {
    let operands = vec![object(vec![("var", Json::Bool(true))]), text("a")];
    assert_eq!(
        complaint(get_variable_name_and_value(&operands)),
        "Failed to get variable name as string. Ensure the context provided obeys the rules of JSON logic"
    );
}

#[test]
fn variable_needs_a_value() {
    assert_eq!(
        complaint(get_variable_name_and_value(&[variable("a")])),
        "Failed to get variable value from operands list. Ensure the context provided obeys the rules of JSON logic"
    );
}

#[test]
fn dimensions_of_one_condition() {
    let context = map(vec![(
        "==",
        Json::Array(vec![variable("city"), Json::Number(JsonNumber::PosInt(7))]),
    )]);
    assert_eq!(
        extract_dimensions(&context),
        Ok(map(vec![("city", Json::Number(JsonNumber::PosInt(7)))]))
    );
}

#[test]
fn single_condition_equals_conjunction_of_it() {
    let single = map(vec![("==", Json::Array(vec![variable("a"), text("1")]))]);
    let joined = map(vec![("and", Json::Array(vec![equals("a", text("1"))]))]);
    assert_eq!(extract_dimensions(&single), extract_dimensions(&joined));
}

#[test]
fn dimensions_of_a_conjunction() {
    let context = map(vec![(
        "and",
        Json::Array(vec![
            equals("a", text("1")),
            object(vec![("in", Json::Array(vec![text("2"), variable("b")]))]),
        ]),
    )]);
    assert_eq!(
        extract_dimensions(&context),
        Ok(map(vec![("a", text("1")), ("b", text("2"))]))
    );
}

#[test]
fn later_value_of_a_dimension_counts() {
    let context = map(vec![(
        "and",
        Json::Array(vec![equals("a", text("1")), equals("a", text("2"))]),
    )]);
    assert_eq!(extract_dimensions(&context), Ok(map(vec![("a", text("2"))])));
}

#[test]
fn empty_contexts_have_no_dimensions() {
    assert_eq!(extract_dimensions(&map(vec![])), Ok(map(vec![])));
    assert_eq!(
        extract_dimensions(&map(vec![("and", Json::Array(vec![]))])),
        Ok(map(vec![]))
    );
}

#[test]
fn conjunction_must_be_an_array() {
    assert_eq!(
        complaint(extract_dimensions(&map(vec![("and", Json::Null)]))),
        "Error extracting dimensions, failed parsing conditions as an array. Ensure the context provided obeys the rules of JSON logic"
    );
}

#[test]
fn conditions_must_be_objects() {
    let context = map(vec![("and", Json::Array(vec![text("a")]))]);
    assert_eq!(
        complaint(extract_dimensions(&context)),
        "Failed to parse condition as an object. Ensure the context provided obeys the rules of JSON logic"
    );
}

#[test]
fn operands_must_be_an_array() {
    assert_eq!(
        complaint(extract_dimensions(&map(vec![("==", text("a"))]))),
        "Failed to parse operands as an arrays. Ensure the context provided obeys the rules of JSON logic"
    );
}

#[test]
fn first_complaint_is_reported() {
    let context = map(vec![(
        "and",
        Json::Array(vec![
            equals("a", text("1")),
            object(vec![("==", Json::Array(vec![]))]),
            Json::Null,
        ]),
    )]);
    assert_eq!(
        complaint(extract_dimensions(&context)),
        "Failed to get variable name from operands list. Ensure the context provided obeys the rules of JSON logic"
    );
}

#[test]
fn members_are_found_and_replaced() {
    let mut members = JsonMap::new();
    members.insert("a".to_string(), text("1"));
    members.insert("b".to_string(), text("2"));
    members.insert("a".to_string(), text("3"));
    assert_eq!(members, map(vec![("a", text("3")), ("b", text("2"))]));
    assert_eq!(members.get("a"), Some(&text("3")));
    assert_eq!(members.get("c"), None);
}

#[test]
fn copies_are_equal() {
    let value = object(vec![
        ("n", Json::Null),
        ("t", Json::Bool(true)),
        ("l", Json::Array(vec![Json::Number(JsonNumber::NegInt(-1)), text("x")])),
        ("f", Json::Number(JsonNumber::Float { bits: 1.5f64.to_bits() })),
        ("o", object(vec![("deep", object(vec![]))])),
    ]);
    assert_eq!(value.clone(), value);
}
