//! The error every operation of the service reports: an optional cause, an
//! optional message for the client, and a kind that fixes the HTTP status.

use vstd::prelude::*;
use vstd::string::StringExecFns;
use crate::text::{json_optional, json_quote_str, optional_view};

verus! {

/// Which of the two access failures occurred.
#[derive(Debug, Clone, Copy, PartialEq, Eq, Structural)]
pub enum Auth {
    /// The caller could not be identified.
    Authentication,
    /// The caller is known but may not do this.
    Authorization,
}

/// The kinds of failure.
#[derive(Debug, Clone, Copy, PartialEq, Eq, Structural)]
pub enum ErrorTypes {
    ValidationError,
    DbError,
    NotFoundError,
    Auth(Auth),
    JwtError,
}

/// A failure of the service.
#[derive(Debug, Clone)]
pub struct Error {
    pub cause: Option<String>,
    pub message: Option<String>,
    pub error_type: ErrorTypes,
}

/// What an [`Error`] holds, as plain values.
#[verifier::ext_equal]
pub struct ErrorView {
    pub cause: Option<Seq<char>>,
    pub message: Option<Seq<char>>,
    pub error_type: ErrorTypes,
}

impl View for Error {
    type V = ErrorView;

    open spec fn view(&self) -> ErrorView {
        ErrorView {
            cause: optional_view(self.cause),
            message: optional_view(self.message),
            error_type: self.error_type,
        }
    }
}

/// The error with the given cause, message and kind.
pub open spec fn failure(cause: Option<Seq<char>>, message: Seq<char>, error_type: ErrorTypes)
    -> ErrorView {
    ErrorView { cause, message: Some(message), error_type }
}

/// The HTTP status code that answers a failure of the given kind.
pub open spec fn status_of(error_type: ErrorTypes) -> u16 {
    match error_type {
        ErrorTypes::ValidationError => 400,
        ErrorTypes::DbError => 500,
        ErrorTypes::NotFoundError => 404,
        ErrorTypes::Auth(Auth::Authentication) => 401,
        ErrorTypes::Auth(Auth::Authorization) => 403,
        ErrorTypes::JwtError => 500,
    }
}

/// Every failure is answered with the status of a client error or of a
/// server error, and only a failure of the database or of a token with the
/// latter.
pub proof fn lemma_status_is_an_error(error_type: ErrorTypes)
    ensures
        400 <= status_of(error_type) < 600,
        status_of(error_type) >= 500 <==> error_type == ErrorTypes::DbError || error_type
            == ErrorTypes::JwtError,
{
}

/// The name of an access failure.
pub open spec fn auth_name(auth: Auth) -> Seq<char> {
    match auth {
        Auth::Authentication => "Authentication"@,
        Auth::Authorization => "Authorization"@,
    }
}

/// A kind of failure as indented JSON, at the depth of a field of the error:
/// a string for the plain kinds, an object with the one key `Auth` for an
/// access failure.
pub open spec fn error_type_json(error_type: ErrorTypes) -> Seq<char> {
    match error_type {
        ErrorTypes::ValidationError => "\"ValidationError\""@,
        ErrorTypes::DbError => "\"DbError\""@,
        ErrorTypes::NotFoundError => "\"NotFoundError\""@,
        ErrorTypes::Auth(auth) => "{\n    \"Auth\": \""@ + auth_name(auth) + "\"\n  }"@,
        ErrorTypes::JwtError => "\"JwtError\""@,
    }
}

/// An error as indented JSON: the three fields in order, two spaces deep.
pub open spec fn error_json(error: ErrorView) -> Seq<char> {
    "{\n  \"cause\": "@ + json_optional(error.cause) + ",\n  \"message\": "@ + json_optional(
        error.message,
    ) + ",\n  \"error_type\": "@ + error_type_json(error.error_type) + "\n}"@
}

/// An optional string as a JSON value.
fn optional_json(text: &Option<String>) -> (r: String)
    ensures
        r@ == json_optional(optional_view(*text)),
{
    match text {
        Some(s) => json_quote_str(s.as_str()),
        None => String::from_str("null"),
    }
}

/// A kind of failure as indented JSON.
fn type_json(error_type: ErrorTypes) -> (r: String)
    ensures
        r@ == error_type_json(error_type),
{
    match error_type {
        ErrorTypes::ValidationError => String::from_str("\"ValidationError\""),
        ErrorTypes::DbError => String::from_str("\"DbError\""),
        ErrorTypes::NotFoundError => String::from_str("\"NotFoundError\""),
        ErrorTypes::Auth(auth) => {
            let mut text = String::from_str("{\n    \"Auth\": \"");
            match auth {
                Auth::Authentication => text.append("Authentication"),
                Auth::Authorization => text.append("Authorization"),
            }
            text.append("\"\n  }");
            text
        },
        ErrorTypes::JwtError => String::from_str("\"JwtError\""),
    }
}

impl Error {
    /// The error with the given parts.
    pub fn new(cause: Option<String>, message: Option<String>, error_type: ErrorTypes) -> (r:
        Self)
        ensures
            r.cause == cause,
            r.message == message,
            r.error_type == error_type,
    {
        Error { cause, message, error_type }
    }

    /// The error of the given kind with a message and, where known, a cause.
    pub fn with_message(cause: Option<String>, message: &str, error_type: ErrorTypes) -> (r: Self)
        ensures
            r@ == failure(optional_view(cause), message@, error_type),
    {
        Error { cause, message: Some(String::from_str(message)), error_type }
    }

    /// Gives an outcome whose failure is a bare text the message and the kind
    /// under which the service reports it, with the text as the cause.
    pub fn describe<T>(outcome: Result<T, String>, message: &str, error_type: ErrorTypes) -> (r:
        Result<T, Error>)
        ensures
            match outcome {
                Ok(value) => r matches Ok(kept) && kept == value,
                Err(cause) => r matches Err(e) && e@ == failure(
                    Some(cause@),
                    message@,
                    error_type,
                ),
            },
    {
        match outcome {
            Ok(value) => Ok(value),
            Err(cause) => Err(Error::with_message(Some(cause), message, error_type)),
        }
    }

    /// The HTTP status code that answers this error.
    pub fn status_code(&self) -> (r: u16)
        ensures
            r == status_of(self.error_type),
    {
        match self.error_type {
            ErrorTypes::ValidationError => 400,
            ErrorTypes::DbError => 500,
            ErrorTypes::NotFoundError => 404,
            ErrorTypes::Auth(auth) => match auth {
                Auth::Authentication => 401,
                Auth::Authorization => 403,
            },
            ErrorTypes::JwtError => 500,
        }
    }

    /// The error as indented JSON, the form in which it is logged, sent as a
    /// response body, and quoted as the cause of another error.
    pub fn to_string(&self) -> (r: String)
        ensures
            r@ == error_json(self@),
    {
        let mut text = String::from_str("{\n  \"cause\": ");
        let cause = optional_json(&self.cause);
        text.append(cause.as_str());
        text.append(",\n  \"message\": ");
        let message = optional_json(&self.message);
        text.append(message.as_str());
        text.append(",\n  \"error_type\": ");
        let kind = type_json(self.error_type);
        text.append(kind.as_str());
        text.append("\n}");
        text
    }
}

} // verus!
