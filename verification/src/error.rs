//! Errors that the service answers with.
use vstd::prelude::*;

use crate::json::{Json, JsonMap, JsonView};

verus! {

/// An error of the service's own operations.
#[derive(Debug, PartialEq, Eq)]
pub enum AppError {
    /// The caller's input breaks a rule; the text says which.
    BadArgument(String),
    /// Something failed that the caller cannot mend; the text says what.
    UnexpectedError(String),
}

impl AppError {
    pub open spec fn is_bad_argument(self, text: Seq<char>) -> bool {
        self matches AppError::BadArgument(t) && t@ == text
    }

    pub open spec fn is_unexpected(self, text: Seq<char>) -> bool {
        self matches AppError::UnexpectedError(t) && t@ == text
    }

    pub fn bad_argument(text: &str) -> (r: AppError)
        ensures
            r.is_bad_argument(text@),
    {
        AppError::BadArgument(text.to_owned())
    }

    pub fn unexpected(text: &str) -> (r: AppError)
        ensures
            r.is_unexpected(text@),
    {
        AppError::UnexpectedError(text.to_owned())
    }
}

/// What an error answer carries.
#[derive(Debug, PartialEq, Eq)]
pub enum ErrorBody {
    Text(String),
    Json(Json),
}

/// An HTTP error answer: its status code and its body.
#[derive(Debug, PartialEq, Eq)]
pub struct HttpError {
    pub status: u16,
    pub body: ErrorBody,
}

impl HttpError {
    /// The answer has this status and this text as its body.
    pub open spec fn says(self, status: u16, text: Seq<char>) -> bool {
        &&& self.status == status
        &&& self.body matches ErrorBody::Text(t)
        &&& t@ == text
    }

    /// The answer has this status and a JSON object with the one member `message` as its body.
    pub open spec fn says_message(self, status: u16, text: Seq<char>) -> bool {
        &&& self.status == status
        &&& self.body matches ErrorBody::Json(j)
        &&& j@ == JsonView::Object(seq![("message"@, JsonView::Str(text))])
    }

    /// An internal error whose body is a JSON object with the one member `message`.
    pub fn internal_message(text: String) -> (r: HttpError)
        ensures
            r.says_message(500, text@),
    {
        let mut members: JsonMap = JsonMap::new();
        members.push("message".to_owned(), Json::Str(text));
        assert(members@ =~= seq![("message"@, JsonView::Str(text@))]);
        HttpError { status: 500, body: ErrorBody::Json(Json::Object(members)) }
    }

    pub fn bad_request(text: &str) -> (r: HttpError)
        ensures
            r.says(400, text@),
    {
        HttpError { status: 400, body: ErrorBody::Text(text.to_owned()) }
    }

    pub fn not_found(text: &str) -> (r: HttpError)
        ensures
            r.says(404, text@),
    {
        HttpError { status: 404, body: ErrorBody::Text(text.to_owned()) }
    }

    pub fn internal(text: &str) -> (r: HttpError)
        ensures
            r.says(500, text@),
    {
        HttpError { status: 500, body: ErrorBody::Text(text.to_owned()) }
    }
}

/// Results whose error can be answered as an internal error with a body of the caller's choice.
pub trait ToActixErr<T>: Sized {
    /// The value of a successful result.
    spec fn success(self) -> Option<T>;

    fn map_err_to_internal_server(self, err_body: String) -> (r: Result<T, HttpError>)
        ensures
            match self.success() {
                Some(value) => r == Ok::<T, HttpError>(value),
                None => r matches Err(e) && e.says(500, err_body@),
            },
    ;
}

impl<T, E> ToActixErr<T> for Result<T, E> {
    open spec fn success(self) -> Option<T> {
        match self {
            Ok(value) => Some(value),
            Err(_) => None,
        }
    }

    fn map_err_to_internal_server(self, err_body: String) -> (r: Result<T, HttpError>) {
        match self {
            Ok(value) => Ok(value),
            Err(_) => Err(HttpError { status: 500, body: ErrorBody::Text(err_body) }),
        }
    }
}

/// The id that a snowflake generator made; or an error that says why its lock was not to be had.
pub fn generate_snowflake_id(generated: Result<i64, String>) -> (r: Result<i64, AppError>)
    ensures
        match generated {
            Ok(id) => r == Ok::<i64, AppError>(id),
            Err(reason) => r matches Err(e) && e.is_unexpected(
                "snowflake_id generation failed "@ + reason@,
            ),
        },
{
    match generated {
        Ok(id) => Ok(id),
        Err(reason) => {
            let mut text: String = "snowflake_id generation failed ".to_owned();
            text.append(reason.as_str());
            Err(AppError::UnexpectedError(text))
        },
    }
}

/// An answer says one thing: its status and its text are determined by it, and a text is not
/// mistaken for a message.
pub proof fn law_answer_says_one_thing(
    answer: HttpError,
    status: u16,
    text: Seq<char>,
    other_status: u16,
    other_text: Seq<char>,
)
    ensures
        answer.says(status, text) && answer.says(other_status, other_text) ==> status
            == other_status && text == other_text,
        answer.says_message(status, text) && answer.says_message(other_status, other_text)
            ==> status == other_status && text == other_text,
        !(answer.says(status, text) && answer.says_message(other_status, other_text)),
        answer.says(status, text) ==> answer.status == status,
        answer.says_message(status, text) ==> answer.status == status,
{
    if answer.says_message(status, text) && answer.says_message(other_status, other_text) {
        let one = seq![("message"@, JsonView::Str(text))];
        let other = seq![("message"@, JsonView::Str(other_text))];
        assert(one[0] == other[0]);
    }
}

/// An error says one thing: its text is determined by it, and so is whose fault it is.
pub proof fn law_error_says_one_thing(error: AppError, text: Seq<char>, other: Seq<char>)
    ensures
        error.is_bad_argument(text) && error.is_bad_argument(other) ==> text == other,
        error.is_unexpected(text) && error.is_unexpected(other) ==> text == other,
        !(error.is_bad_argument(text) && error.is_unexpected(other)),
{
}

} // verus!
