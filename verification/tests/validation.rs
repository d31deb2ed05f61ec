use superposition_service::validation::{
    validation_err_to_str, ValidationError, ValidationErrorKind,
};

fn says(kind: ValidationErrorKind, expected: &str) {
    assert_eq!(
        validation_err_to_str(vec![ValidationError { kind }]),
        vec![expected.to_string()]
    );
}

fn s(text: &str) -> String {
    text.to_string()
}

#[test]
fn texts_with_counts() {
    says(ValidationErrorKind::AdditionalItems { limit: 3 }, "input array contain more items than expected, limit is 3");
    says(ValidationErrorKind::MaxItems { limit: 10 }, "too many items in array, limit is 10");
    says(ValidationErrorKind::MaxLength { limit: 0 }, "string is too long, maximum length is 0");
    says(ValidationErrorKind::MaxProperties { limit: 4 }, "too many properties in object, limit is 4");
    says(ValidationErrorKind::MinItems { limit: 2 }, "not enough items in array, minimum is 2");
    says(ValidationErrorKind::MinLength { limit: 255 }, "string is too short, minimum length is 255");
    says(ValidationErrorKind::MinProperties { limit: 1 }, "not enough properties in object, minimum is 1");
}

#[test]
fn texts_with_property_lists() {
    says(ValidationErrorKind::AdditionalProperties { unexpected: vec![s("a"), s("b")] }, "unexpected properties `a, b`");
    says(ValidationErrorKind::UnevaluatedProperties { unexpected: vec![s("a")] }, "unevaluated properties `a`");
    says(ValidationErrorKind::UnevaluatedProperties { unexpected: vec![] }, "unevaluated properties ``");
}

#[test]
fn texts_without_details() {
    says(ValidationErrorKind::AnyOf, "not valid under any of the schemas listed in the 'anyOf' keyword");
    says(ValidationErrorKind::BacktrackLimitExceeded, "backtrack limit exceeded while matching regex");
    says(ValidationErrorKind::Contains, "array doesn't contain items conforming to the specified schema");
    says(ValidationErrorKind::FalseSchema, "everything is invalid for `false` schema");
    says(ValidationErrorKind::FileNotFound, "referenced file not found");
    says(ValidationErrorKind::FromUtf8, "invalid UTF-8 data");
    says(ValidationErrorKind::OneOfMultipleValid, "value is valid under more than one schema listed in the 'oneOf' keyword");
    says(ValidationErrorKind::OneOfNotValid, "value is not valid under any of the schemas listed in the 'oneOf' keyword");
    says(ValidationErrorKind::Schema, "resolved schema failed to compile");
    says(ValidationErrorKind::UniqueItems, "array contains non-unique elements");
}

#[test]
fn texts_with_quoted_details() {
    says(ValidationErrorKind::Constant { expected_value: s("1") }, "value doesn't match expected constant `1`");
    says(ValidationErrorKind::ContentEncoding { content_encoding: s("base64") }, "value doesn't respect the defined contentEncoding `base64`");
    says(ValidationErrorKind::ContentMediaType { content_media_type: s("application/json") }, "value doesn't respect the defined contentMediaType `application/json`");
    says(ValidationErrorKind::Format { format: s("date") }, "value doesn't match the specified format `date`");
    says(ValidationErrorKind::InvalidReference { reference: s("#/x") }, "`#/x` is not a valid reference");
    says(ValidationErrorKind::Not { schema: s("{}") }, "negated schema `{}` failed validation");
    says(ValidationErrorKind::Pattern { pattern: s("^a") }, "value doesn't match the pattern `^a`");
    says(ValidationErrorKind::Required { property: s("\"id\"") }, "required property `\"id\"` is missing");
    says(ValidationErrorKind::Resolver { url: s("u"), error: s("e") }, "error resolving reference `u`: e");
    says(ValidationErrorKind::Type { kind: s("Single(Integer)") }, "value doesn't match the required type(s) `Single(Integer)`");
    says(ValidationErrorKind::UnknownReferenceScheme { scheme: s("ftp") }, "unknown reference scheme `ftp`");
}

#[test]
fn texts_with_plain_details() {
    says(ValidationErrorKind::Enum { options: s("[1,2]") }, "value doesn't match any of specified options [1,2]");
    says(ValidationErrorKind::ExclusiveMaximum { limit: s("5") }, "value is too large, limit is 5");
    says(ValidationErrorKind::ExclusiveMinimum { limit: s("5") }, "value is too small, limit is 5");
    says(ValidationErrorKind::InvalidURL { error: s("e") }, "invalid URL: e");
    says(ValidationErrorKind::JSONParse { error: s("e") }, "error parsing JSON: e");
    says(ValidationErrorKind::Maximum { limit: s("5") }, "value is too large, maximum is 5");
    says(ValidationErrorKind::Minimum { limit: s("5") }, "value is too small, minimum is 5");
    says(ValidationErrorKind::MultipleOf { multiple_of: s("3") }, "value is not a multiple of 3");
    says(ValidationErrorKind::PropertyNames { error: s("e") }, "object property names are invalid: e");
    says(ValidationErrorKind::Utf8 { error: s("e") }, "invalid UTF-8 string: e");
}

#[test]
fn findings_keep_their_order() {
    assert_eq!(
        validation_err_to_str(vec![
            ValidationError { kind: ValidationErrorKind::AnyOf },
            ValidationError { kind: ValidationErrorKind::MinItems { limit: 1 } },
        ]),
        vec![
            s("not valid under any of the schemas listed in the 'anyOf' keyword"),
            s("not enough items in array, minimum is 1"),
        ]
    );
    assert_eq!(validation_err_to_str(vec![]), Vec::<String>::new());
}
