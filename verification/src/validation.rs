//! Readable texts for what a JSON schema found wrong with a value.
use vstd::prelude::*;

use crate::text::{concat3, decimal, join_strings, join_with, texts, u64_to_string};

verus! {

/// The kinds of findings. What a finding refers to is held as the text under which it is shown;
/// counts are held as numbers.
#[allow(inconsistent_fields)]
#[derive(Debug)]
pub enum ValidationErrorKind {
    AdditionalItems { limit: u64 },
    AdditionalProperties { unexpected: Vec<String> },
    AnyOf,
    BacktrackLimitExceeded,
    /// `expected_value` is the constant as JSON text.
    Constant { expected_value: String },
    Contains,
    ContentEncoding { content_encoding: String },
    ContentMediaType { content_media_type: String },
    /// `options` is the list of options as JSON text.
    Enum { options: String },
    /// `limit` as JSON text.
    ExclusiveMaximum { limit: String },
    /// `limit` as JSON text.
    ExclusiveMinimum { limit: String },
    FalseSchema,
    FileNotFound,
    Format { format: String },
    FromUtf8,
    InvalidReference { reference: String },
    /// `error` as displayed.
    InvalidURL { error: String },
    /// `error` as displayed.
    JSONParse { error: String },
    MaxItems { limit: u64 },
    /// `limit` as JSON text.
    Maximum { limit: String },
    MaxLength { limit: u64 },
    MaxProperties { limit: u64 },
    MinItems { limit: u64 },
    /// `limit` as JSON text.
    Minimum { limit: String },
    MinLength { limit: u64 },
    MinProperties { limit: u64 },
    /// `multiple_of` as displayed.
    MultipleOf { multiple_of: String },
    /// `schema` as JSON text.
    Not { schema: String },
    OneOfMultipleValid,
    OneOfNotValid,
    Pattern { pattern: String },
    /// `error` as displayed.
    PropertyNames { error: String },
    /// `property` as JSON text.
    Required { property: String },
    /// `url` and `error` as displayed.
    Resolver { url: String, error: String },
    Schema,
    /// `kind` as its debug text.
    Type { kind: String },
    UnevaluatedProperties { unexpected: Vec<String> },
    UniqueItems,
    UnknownReferenceScheme { scheme: String },
    /// `error` as displayed.
    Utf8 { error: String },
}

/// A finding.
#[derive(Debug)]
pub struct ValidationError {
    pub kind: ValidationErrorKind,
}

/// The text for a finding.
pub open spec fn message(kind: ValidationErrorKind) -> Seq<char> {
    match kind {
        ValidationErrorKind::AdditionalItems { limit } => "input array contain more items than expected, limit is "@ + decimal(limit as nat),
        ValidationErrorKind::AdditionalProperties { unexpected } => "unexpected properties `"@ + join_with(texts(unexpected@), ", "@) + "`"@,
        ValidationErrorKind::AnyOf => "not valid under any of the schemas listed in the 'anyOf' keyword"@,
        ValidationErrorKind::BacktrackLimitExceeded => "backtrack limit exceeded while matching regex"@,
        ValidationErrorKind::Constant { expected_value } => "value doesn't match expected constant `"@ + expected_value@ + "`"@,
        ValidationErrorKind::Contains => "array doesn't contain items conforming to the specified schema"@,
        ValidationErrorKind::ContentEncoding { content_encoding } => "value doesn't respect the defined contentEncoding `"@ + content_encoding@ + "`"@,
        ValidationErrorKind::ContentMediaType { content_media_type } => "value doesn't respect the defined contentMediaType `"@ + content_media_type@ + "`"@,
        ValidationErrorKind::Enum { options } => "value doesn't match any of specified options "@ + options@,
        ValidationErrorKind::ExclusiveMaximum { limit } => "value is too large, limit is "@ + limit@,
        ValidationErrorKind::ExclusiveMinimum { limit } => "value is too small, limit is "@ + limit@,
        ValidationErrorKind::FalseSchema => "everything is invalid for `false` schema"@,
        ValidationErrorKind::FileNotFound => "referenced file not found"@,
        ValidationErrorKind::Format { format } => "value doesn't match the specified format `"@ + format@ + "`"@,
        ValidationErrorKind::FromUtf8 => "invalid UTF-8 data"@,
        ValidationErrorKind::InvalidReference { reference } => "`"@ + reference@ + "` is not a valid reference"@,
        ValidationErrorKind::InvalidURL { error } => "invalid URL: "@ + error@,
        ValidationErrorKind::JSONParse { error } => "error parsing JSON: "@ + error@,
        ValidationErrorKind::MaxItems { limit } => "too many items in array, limit is "@ + decimal(limit as nat),
        ValidationErrorKind::Maximum { limit } => "value is too large, maximum is "@ + limit@,
        ValidationErrorKind::MaxLength { limit } => "string is too long, maximum length is "@ + decimal(limit as nat),
        ValidationErrorKind::MaxProperties { limit } => "too many properties in object, limit is "@ + decimal(limit as nat),
        ValidationErrorKind::MinItems { limit } => "not enough items in array, minimum is "@ + decimal(limit as nat),
        ValidationErrorKind::Minimum { limit } => "value is too small, minimum is "@ + limit@,
        ValidationErrorKind::MinLength { limit } => "string is too short, minimum length is "@ + decimal(limit as nat),
        ValidationErrorKind::MinProperties { limit } => "not enough properties in object, minimum is "@ + decimal(limit as nat),
        ValidationErrorKind::MultipleOf { multiple_of } => "value is not a multiple of "@ + multiple_of@,
        ValidationErrorKind::Not { schema } => "negated schema `"@ + schema@ + "` failed validation"@,
        ValidationErrorKind::OneOfMultipleValid => "value is valid under more than one schema listed in the 'oneOf' keyword"@,
        ValidationErrorKind::OneOfNotValid => "value is not valid under any of the schemas listed in the 'oneOf' keyword"@,
        ValidationErrorKind::Pattern { pattern } => "value doesn't match the pattern `"@ + pattern@ + "`"@,
        ValidationErrorKind::PropertyNames { error } => "object property names are invalid: "@ + error@,
        ValidationErrorKind::Required { property } => "required property `"@ + property@ + "` is missing"@,
        ValidationErrorKind::Resolver { url, error } => "error resolving reference `"@ + url@ + "`: "@ + error@,
        ValidationErrorKind::Schema => "resolved schema failed to compile"@,
        ValidationErrorKind::Type { kind } => "value doesn't match the required type(s) `"@ + kind@ + "`"@,
        ValidationErrorKind::UnevaluatedProperties { unexpected } => "unevaluated properties `"@ + join_with(texts(unexpected@), ", "@) + "`"@,
        ValidationErrorKind::UniqueItems => "array contains non-unique elements"@,
        ValidationErrorKind::UnknownReferenceScheme { scheme } => "unknown reference scheme `"@ + scheme@ + "`"@,
        ValidationErrorKind::Utf8 { error } => "invalid UTF-8 string: "@ + error@,
    }
}

/// `head`, then `tail`.
fn concat2(head: &str, tail: &str) -> (r: String)
    ensures
        r@ == head@ + tail@,
{
    let mut r: String = head.to_owned();
    r.append(tail);
    r
}

/// The text for one finding.
fn describe(kind: ValidationErrorKind) -> (r: String)
    ensures
        r@ == message(kind),
{
    match kind {
        ValidationErrorKind::AdditionalItems { limit } => concat2("input array contain more items than expected, limit is ", u64_to_string(limit).as_str()),
        ValidationErrorKind::AdditionalProperties { unexpected } => concat3("unexpected properties `", join_strings(&unexpected, ", ").as_str(), "`"),
        ValidationErrorKind::AnyOf => "not valid under any of the schemas listed in the 'anyOf' keyword".to_owned(),
        ValidationErrorKind::BacktrackLimitExceeded => "backtrack limit exceeded while matching regex".to_owned(),
        ValidationErrorKind::Constant { expected_value } => concat3("value doesn't match expected constant `", expected_value.as_str(), "`"),
        ValidationErrorKind::Contains => "array doesn't contain items conforming to the specified schema".to_owned(),
        ValidationErrorKind::ContentEncoding { content_encoding } => concat3("value doesn't respect the defined contentEncoding `", content_encoding.as_str(), "`"),
        ValidationErrorKind::ContentMediaType { content_media_type } => concat3("value doesn't respect the defined contentMediaType `", content_media_type.as_str(), "`"),
        ValidationErrorKind::Enum { options } => concat2("value doesn't match any of specified options ", options.as_str()),
        ValidationErrorKind::ExclusiveMaximum { limit } => concat2("value is too large, limit is ", limit.as_str()),
        ValidationErrorKind::ExclusiveMinimum { limit } => concat2("value is too small, limit is ", limit.as_str()),
        ValidationErrorKind::FalseSchema => "everything is invalid for `false` schema".to_owned(),
        ValidationErrorKind::FileNotFound => "referenced file not found".to_owned(),
        ValidationErrorKind::Format { format } => concat3("value doesn't match the specified format `", format.as_str(), "`"),
        ValidationErrorKind::FromUtf8 => "invalid UTF-8 data".to_owned(),
        ValidationErrorKind::InvalidReference { reference } => concat3("`", reference.as_str(), "` is not a valid reference"),
        ValidationErrorKind::InvalidURL { error } => concat2("invalid URL: ", error.as_str()),
        ValidationErrorKind::JSONParse { error } => concat2("error parsing JSON: ", error.as_str()),
        ValidationErrorKind::MaxItems { limit } => concat2("too many items in array, limit is ", u64_to_string(limit).as_str()),
        ValidationErrorKind::Maximum { limit } => concat2("value is too large, maximum is ", limit.as_str()),
        ValidationErrorKind::MaxLength { limit } => concat2("string is too long, maximum length is ", u64_to_string(limit).as_str()),
        ValidationErrorKind::MaxProperties { limit } => concat2("too many properties in object, limit is ", u64_to_string(limit).as_str()),
        ValidationErrorKind::MinItems { limit } => concat2("not enough items in array, minimum is ", u64_to_string(limit).as_str()),
        ValidationErrorKind::Minimum { limit } => concat2("value is too small, minimum is ", limit.as_str()),
        ValidationErrorKind::MinLength { limit } => concat2("string is too short, minimum length is ", u64_to_string(limit).as_str()),
        ValidationErrorKind::MinProperties { limit } => concat2("not enough properties in object, minimum is ", u64_to_string(limit).as_str()),
        ValidationErrorKind::MultipleOf { multiple_of } => concat2("value is not a multiple of ", multiple_of.as_str()),
        ValidationErrorKind::Not { schema } => concat3("negated schema `", schema.as_str(), "` failed validation"),
        ValidationErrorKind::OneOfMultipleValid => "value is valid under more than one schema listed in the 'oneOf' keyword".to_owned(),
        ValidationErrorKind::OneOfNotValid => "value is not valid under any of the schemas listed in the 'oneOf' keyword".to_owned(),
        ValidationErrorKind::Pattern { pattern } => concat3("value doesn't match the pattern `", pattern.as_str(), "`"),
        ValidationErrorKind::PropertyNames { error } => concat2("object property names are invalid: ", error.as_str()),
        ValidationErrorKind::Required { property } => concat3("required property `", property.as_str(), "` is missing"),
        ValidationErrorKind::Resolver { url, error } => concat2(concat3("error resolving reference `", url.as_str(), "`: ").as_str(), error.as_str()),
        ValidationErrorKind::Schema => "resolved schema failed to compile".to_owned(),
        ValidationErrorKind::Type { kind } => concat3("value doesn't match the required type(s) `", kind.as_str(), "`"),
        ValidationErrorKind::UnevaluatedProperties { unexpected } => concat3("unevaluated properties `", join_strings(&unexpected, ", ").as_str(), "`"),
        ValidationErrorKind::UniqueItems => "array contains non-unique elements".to_owned(),
        ValidationErrorKind::UnknownReferenceScheme { scheme } => concat3("unknown reference scheme `", scheme.as_str(), "`"),
        ValidationErrorKind::Utf8 { error } => concat2("invalid UTF-8 string: ", error.as_str()),
    }
}

/// The texts for the findings, in order.
pub fn validation_err_to_str(errors: Vec<ValidationError>) -> (r: Vec<String>)
    ensures
        texts(r@) == errors@.map_values(|e: ValidationError| message(e.kind)),
{
    let mut r: Vec<String> = Vec::new();
    for error in it: errors
        invariant
            it.seq() == errors@,
            r@.len() == it.index(),
            forall|j: int| 0 <= j < r@.len() ==> (#[trigger] r@[j])@ == message(errors@[j].kind),
    {
        r.push(describe(error.kind));
    }
    assert(texts(r@) =~= errors@.map_values(|e: ValidationError| message(e.kind)));
    r
}

/// The text is the detail between these two pieces.
pub open spec fn surrounds(
    before: Seq<char>,
    detail: Seq<char>,
    after: Seq<char>,
    text: Seq<char>,
) -> bool {
    text == before + detail + after
}

/// Two texts differ only in their details: what stands before and after them is the same.
pub open spec fn differ_in(
    text: Seq<char>,
    detail: Seq<char>,
    other: Seq<char>,
    other_detail: Seq<char>,
) -> bool {
    exists|before: Seq<char>, after: Seq<char>|
        #![trigger surrounds(before, detail, after, text)]
        surrounds(before, detail, after, text) && surrounds(before, other_detail, after, other)
}

proof fn lemma_differ(
    before: Seq<char>,
    after: Seq<char>,
    text: Seq<char>,
    detail: Seq<char>,
    other: Seq<char>,
    other_detail: Seq<char>,
)
    requires
        text =~= before + detail + after,
        other =~= before + other_detail + after,
    ensures
        differ_in(text, detail, other, other_detail),
{
    assert(surrounds(before, detail, after, text));
    assert(surrounds(before, other_detail, after, other));
}

/// Every finding shows its detail as it is: the texts for two findings of one kind differ in exactly
/// their details, be these counts, texts or lists of names.
pub proof fn law_details_are_shown(
    m: u64,
    n: u64,
    a: String,
    b: String,
    c: String,
    v: Vec<String>,
    w: Vec<String>,
)
    ensures
        differ_in(message(ValidationErrorKind::AdditionalItems { limit: m }), decimal(m as nat), message(ValidationErrorKind::AdditionalItems { limit: n }), decimal(n as nat)),
        differ_in(message(ValidationErrorKind::MaxItems { limit: m }), decimal(m as nat), message(ValidationErrorKind::MaxItems { limit: n }), decimal(n as nat)),
        differ_in(message(ValidationErrorKind::MaxLength { limit: m }), decimal(m as nat), message(ValidationErrorKind::MaxLength { limit: n }), decimal(n as nat)),
        differ_in(message(ValidationErrorKind::MaxProperties { limit: m }), decimal(m as nat), message(ValidationErrorKind::MaxProperties { limit: n }), decimal(n as nat)),
        differ_in(message(ValidationErrorKind::MinItems { limit: m }), decimal(m as nat), message(ValidationErrorKind::MinItems { limit: n }), decimal(n as nat)),
        differ_in(message(ValidationErrorKind::MinLength { limit: m }), decimal(m as nat), message(ValidationErrorKind::MinLength { limit: n }), decimal(n as nat)),
        differ_in(message(ValidationErrorKind::MinProperties { limit: m }), decimal(m as nat), message(ValidationErrorKind::MinProperties { limit: n }), decimal(n as nat)),
        differ_in(message(ValidationErrorKind::Constant { expected_value: a }), a@, message(ValidationErrorKind::Constant { expected_value: b }), b@),
        differ_in(message(ValidationErrorKind::ContentEncoding { content_encoding: a }), a@, message(ValidationErrorKind::ContentEncoding { content_encoding: b }), b@),
        differ_in(message(ValidationErrorKind::ContentMediaType { content_media_type: a }), a@, message(ValidationErrorKind::ContentMediaType { content_media_type: b }), b@),
        differ_in(message(ValidationErrorKind::Enum { options: a }), a@, message(ValidationErrorKind::Enum { options: b }), b@),
        differ_in(message(ValidationErrorKind::ExclusiveMaximum { limit: a }), a@, message(ValidationErrorKind::ExclusiveMaximum { limit: b }), b@),
        differ_in(message(ValidationErrorKind::ExclusiveMinimum { limit: a }), a@, message(ValidationErrorKind::ExclusiveMinimum { limit: b }), b@),
        differ_in(message(ValidationErrorKind::Format { format: a }), a@, message(ValidationErrorKind::Format { format: b }), b@),
        differ_in(message(ValidationErrorKind::InvalidReference { reference: a }), a@, message(ValidationErrorKind::InvalidReference { reference: b }), b@),
        differ_in(message(ValidationErrorKind::InvalidURL { error: a }), a@, message(ValidationErrorKind::InvalidURL { error: b }), b@),
        differ_in(message(ValidationErrorKind::JSONParse { error: a }), a@, message(ValidationErrorKind::JSONParse { error: b }), b@),
        differ_in(message(ValidationErrorKind::Maximum { limit: a }), a@, message(ValidationErrorKind::Maximum { limit: b }), b@),
        differ_in(message(ValidationErrorKind::Minimum { limit: a }), a@, message(ValidationErrorKind::Minimum { limit: b }), b@),
        differ_in(message(ValidationErrorKind::MultipleOf { multiple_of: a }), a@, message(ValidationErrorKind::MultipleOf { multiple_of: b }), b@),
        differ_in(message(ValidationErrorKind::Not { schema: a }), a@, message(ValidationErrorKind::Not { schema: b }), b@),
        differ_in(message(ValidationErrorKind::Pattern { pattern: a }), a@, message(ValidationErrorKind::Pattern { pattern: b }), b@),
        differ_in(message(ValidationErrorKind::PropertyNames { error: a }), a@, message(ValidationErrorKind::PropertyNames { error: b }), b@),
        differ_in(message(ValidationErrorKind::Required { property: a }), a@, message(ValidationErrorKind::Required { property: b }), b@),
        differ_in(message(ValidationErrorKind::Type { kind: a }), a@, message(ValidationErrorKind::Type { kind: b }), b@),
        differ_in(message(ValidationErrorKind::UnknownReferenceScheme { scheme: a }), a@, message(ValidationErrorKind::UnknownReferenceScheme { scheme: b }), b@),
        differ_in(message(ValidationErrorKind::Utf8 { error: a }), a@, message(ValidationErrorKind::Utf8 { error: b }), b@),
        differ_in(message(ValidationErrorKind::AdditionalProperties { unexpected: v }), join_with(texts(v@), ", "@), message(ValidationErrorKind::AdditionalProperties { unexpected: w }), join_with(texts(w@), ", "@)),
        differ_in(message(ValidationErrorKind::UnevaluatedProperties { unexpected: v }), join_with(texts(v@), ", "@), message(ValidationErrorKind::UnevaluatedProperties { unexpected: w }), join_with(texts(w@), ", "@)),
        differ_in(message(ValidationErrorKind::Resolver { url: a, error: c }), a@, message(ValidationErrorKind::Resolver { url: b, error: c }), b@),
        differ_in(message(ValidationErrorKind::Resolver { url: c, error: a }), a@, message(ValidationErrorKind::Resolver { url: c, error: b }), b@),
{
    lemma_differ("input array contain more items than expected, limit is "@, seq![], message(ValidationErrorKind::AdditionalItems { limit: m }), decimal(m as nat), message(ValidationErrorKind::AdditionalItems { limit: n }), decimal(n as nat));
    lemma_differ("too many items in array, limit is "@, seq![], message(ValidationErrorKind::MaxItems { limit: m }), decimal(m as nat), message(ValidationErrorKind::MaxItems { limit: n }), decimal(n as nat));
    lemma_differ("string is too long, maximum length is "@, seq![], message(ValidationErrorKind::MaxLength { limit: m }), decimal(m as nat), message(ValidationErrorKind::MaxLength { limit: n }), decimal(n as nat));
    lemma_differ("too many properties in object, limit is "@, seq![], message(ValidationErrorKind::MaxProperties { limit: m }), decimal(m as nat), message(ValidationErrorKind::MaxProperties { limit: n }), decimal(n as nat));
    lemma_differ("not enough items in array, minimum is "@, seq![], message(ValidationErrorKind::MinItems { limit: m }), decimal(m as nat), message(ValidationErrorKind::MinItems { limit: n }), decimal(n as nat));
    lemma_differ("string is too short, minimum length is "@, seq![], message(ValidationErrorKind::MinLength { limit: m }), decimal(m as nat), message(ValidationErrorKind::MinLength { limit: n }), decimal(n as nat));
    lemma_differ("not enough properties in object, minimum is "@, seq![], message(ValidationErrorKind::MinProperties { limit: m }), decimal(m as nat), message(ValidationErrorKind::MinProperties { limit: n }), decimal(n as nat));
    lemma_differ("value doesn't match expected constant `"@, "`"@, message(ValidationErrorKind::Constant { expected_value: a }), a@, message(ValidationErrorKind::Constant { expected_value: b }), b@);
    lemma_differ("value doesn't respect the defined contentEncoding `"@, "`"@, message(ValidationErrorKind::ContentEncoding { content_encoding: a }), a@, message(ValidationErrorKind::ContentEncoding { content_encoding: b }), b@);
    lemma_differ("value doesn't respect the defined contentMediaType `"@, "`"@, message(ValidationErrorKind::ContentMediaType { content_media_type: a }), a@, message(ValidationErrorKind::ContentMediaType { content_media_type: b }), b@);
    lemma_differ("value doesn't match any of specified options "@, seq![], message(ValidationErrorKind::Enum { options: a }), a@, message(ValidationErrorKind::Enum { options: b }), b@);
    lemma_differ("value is too large, limit is "@, seq![], message(ValidationErrorKind::ExclusiveMaximum { limit: a }), a@, message(ValidationErrorKind::ExclusiveMaximum { limit: b }), b@);
    lemma_differ("value is too small, limit is "@, seq![], message(ValidationErrorKind::ExclusiveMinimum { limit: a }), a@, message(ValidationErrorKind::ExclusiveMinimum { limit: b }), b@);
    lemma_differ("value doesn't match the specified format `"@, "`"@, message(ValidationErrorKind::Format { format: a }), a@, message(ValidationErrorKind::Format { format: b }), b@);
    lemma_differ("`"@, "` is not a valid reference"@, message(ValidationErrorKind::InvalidReference { reference: a }), a@, message(ValidationErrorKind::InvalidReference { reference: b }), b@);
    lemma_differ("invalid URL: "@, seq![], message(ValidationErrorKind::InvalidURL { error: a }), a@, message(ValidationErrorKind::InvalidURL { error: b }), b@);
    lemma_differ("error parsing JSON: "@, seq![], message(ValidationErrorKind::JSONParse { error: a }), a@, message(ValidationErrorKind::JSONParse { error: b }), b@);
    lemma_differ("value is too large, maximum is "@, seq![], message(ValidationErrorKind::Maximum { limit: a }), a@, message(ValidationErrorKind::Maximum { limit: b }), b@);
    lemma_differ("value is too small, minimum is "@, seq![], message(ValidationErrorKind::Minimum { limit: a }), a@, message(ValidationErrorKind::Minimum { limit: b }), b@);
    lemma_differ("value is not a multiple of "@, seq![], message(ValidationErrorKind::MultipleOf { multiple_of: a }), a@, message(ValidationErrorKind::MultipleOf { multiple_of: b }), b@);
    lemma_differ("negated schema `"@, "` failed validation"@, message(ValidationErrorKind::Not { schema: a }), a@, message(ValidationErrorKind::Not { schema: b }), b@);
    lemma_differ("value doesn't match the pattern `"@, "`"@, message(ValidationErrorKind::Pattern { pattern: a }), a@, message(ValidationErrorKind::Pattern { pattern: b }), b@);
    lemma_differ("object property names are invalid: "@, seq![], message(ValidationErrorKind::PropertyNames { error: a }), a@, message(ValidationErrorKind::PropertyNames { error: b }), b@);
    lemma_differ("required property `"@, "` is missing"@, message(ValidationErrorKind::Required { property: a }), a@, message(ValidationErrorKind::Required { property: b }), b@);
    lemma_differ("value doesn't match the required type(s) `"@, "`"@, message(ValidationErrorKind::Type { kind: a }), a@, message(ValidationErrorKind::Type { kind: b }), b@);
    lemma_differ("unknown reference scheme `"@, "`"@, message(ValidationErrorKind::UnknownReferenceScheme { scheme: a }), a@, message(ValidationErrorKind::UnknownReferenceScheme { scheme: b }), b@);
    lemma_differ("invalid UTF-8 string: "@, seq![], message(ValidationErrorKind::Utf8 { error: a }), a@, message(ValidationErrorKind::Utf8 { error: b }), b@);
    lemma_differ("unexpected properties `"@, "`"@, message(ValidationErrorKind::AdditionalProperties { unexpected: v }), join_with(texts(v@), ", "@), message(ValidationErrorKind::AdditionalProperties { unexpected: w }), join_with(texts(w@), ", "@));
    lemma_differ("unevaluated properties `"@, "`"@, message(ValidationErrorKind::UnevaluatedProperties { unexpected: v }), join_with(texts(v@), ", "@), message(ValidationErrorKind::UnevaluatedProperties { unexpected: w }), join_with(texts(w@), ", "@));
    lemma_differ("error resolving reference `"@, "`: "@ + c@, message(ValidationErrorKind::Resolver { url: a, error: c }), a@, message(ValidationErrorKind::Resolver { url: b, error: c }), b@);
    lemma_differ("error resolving reference `"@ + c@ + "`: "@, seq![], message(ValidationErrorKind::Resolver { url: c, error: a }), a@, message(ValidationErrorKind::Resolver { url: c, error: b }), b@);
}

} // verus!
