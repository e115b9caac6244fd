use crate::models::custom_path::{PathErrorKind, PathRejection, PathRejectionKind};
use crate::status::{reason_phrase, StatusCode};
use crate::store::StoreError;
use vstd::prelude::*;
use vstd::std_specs::convert::FromSpecImpl;

verus! {

/// Every way in which a request can fail.
#[derive(Debug)]
pub enum ApiError {
    /// No route matches the path of the request.
    RouteNotFound,
    /// The deadline of the request passed before it was answered.
    RequestTimeout,
    /// Something failed that the client is told nothing about. The text is the
    /// cause, kept for the server's log.
    InternalServerError(String),
    /// A lookup in the store failed.
    DatabaseError(StoreError),
    /// The path extractor turned the request down.
    PathRejection(PathRejection),
}

/// What a failed service call reports to the layer that handles its error.
#[derive(Debug)]
pub enum ServiceFailure {
    /// The deadline of the request passed.
    Elapsed,
    /// Anything else, with its description.
    Other(String),
}

impl ApiError {
    /// The error that a failure of the service becomes: a passed deadline is a
    /// request timeout, anything else an internal error that holds its cause.
    pub fn from_service_failure(failure: ServiceFailure) -> (error: ApiError)
        ensures
            match failure {
                ServiceFailure::Elapsed => error == ApiError::RequestTimeout,
                ServiceFailure::Other(cause) => error == ApiError::InternalServerError(cause),
            },
    {
        match failure {
            ServiceFailure::Elapsed => ApiError::RequestTimeout,
            ServiceFailure::Other(cause) => ApiError::InternalServerError(cause),
        }
    }
}

impl ApiError {
    /// The status with which the error is answered.
    ///
    /// A missing route and a missing row are both 404, a passed deadline is 408,
    /// and a malformed path parameter is 400. Everything else is 500: an internal
    /// error, a store that could not be reached, a path parameter of a type that
    /// cannot be parsed at all, and a path extractor that failed before it read
    /// the parameters.
    pub open spec fn status(&self) -> int {
        match self {
            ApiError::RouteNotFound => 404,
            ApiError::RequestTimeout => 408,
            ApiError::InternalServerError(_) => 500,
            ApiError::DatabaseError(StoreError::RowNotFound) => 404,
            ApiError::DatabaseError(StoreError::Unavailable(_)) => 500,
            ApiError::PathRejection(rejection) => match rejection.kind {
                PathRejectionKind::FailedToDeserializePathParams(
                    PathErrorKind::UnsupportedType,
                ) => 500,
                PathRejectionKind::FailedToDeserializePathParams(_) => 400,
                PathRejectionKind::MissingPathParams => 500,
                PathRejectionKind::ExtensionsAlreadyExtracted => 500,
            },
        }
    }

    /// The reason phrase that stands for `status()` in the error body.
    pub open spec fn reason(&self) -> Seq<char> {
        if self.status() == 400 {
            "Bad Request"@
        } else if self.status() == 404 {
            "Not Found"@
        } else if self.status() == 408 {
            "Request Timeout"@
        } else {
            "Internal Server Error"@
        }
    }

    /// The sentence that describes the kind of the error, whatever caused it.
    pub open spec fn description(&self) -> Seq<char> {
        match self {
            ApiError::RouteNotFound => "This route was not found."@,
            ApiError::RequestTimeout => "Your request timed out."@,
            ApiError::InternalServerError(_) => "An internal error has occurred."@,
            ApiError::DatabaseError(_) => "A database error occurred."@,
            ApiError::PathRejection(_) => "This path is invalid."@,
        }
    }

    /// The message that the client is shown.
    ///
    /// A missing row has a sentence of its own and a rejected path is described in
    /// the extractor's words. Every other error shows its `description()`, so that
    /// neither the cause of an internal error nor the store's account of a failure
    /// reaches the client.
    pub open spec fn client_message(&self) -> Seq<char> {
        match self {
            ApiError::DatabaseError(StoreError::RowNotFound) => {
                "This data was not found in the database."@
            },
            ApiError::PathRejection(rejection) => rejection.message@,
            _ => self.description(),
        }
    }

    /// The line that the server logs before it answers, if it logs one: errors
    /// answered with 500 are logged with their cause, all others are not logged.
    pub open spec fn log_line(&self) -> Option<Seq<char>> {
        match self {
            ApiError::InternalServerError(cause) => Some(cause@),
            ApiError::DatabaseError(StoreError::Unavailable(detail)) => Some(detail@),
            ApiError::PathRejection(rejection) => if self.status() == 500 {
                Some(rejection.message@)
            } else {
                None
            },
            _ => None,
        }
    }

    /// Computes `status()`.
    pub fn status_code(&self) -> (status: StatusCode)
        ensures
            status@ == self.status(),
    {
        match self {
            ApiError::RouteNotFound => StatusCode::not_found(),
            ApiError::RequestTimeout => StatusCode::request_timeout(),
            ApiError::InternalServerError(_) => StatusCode::internal_server_error(),
            ApiError::DatabaseError(StoreError::RowNotFound) => StatusCode::not_found(),
            ApiError::DatabaseError(StoreError::Unavailable(_)) => {
                StatusCode::internal_server_error()
            },
            ApiError::PathRejection(rejection) => match rejection.kind {
                PathRejectionKind::FailedToDeserializePathParams(kind) => match kind {
                    PathErrorKind::UnsupportedType => StatusCode::internal_server_error(),
                    _ => StatusCode::bad_request(),
                },
                _ => StatusCode::internal_server_error(),
            },
        }
    }

    /// Computes `description()`.
    pub fn to_string(&self) -> (text: String)
        ensures
            text@ == self.description(),
    {
        match self {
            ApiError::RouteNotFound => "This route was not found.".to_owned(),
            ApiError::RequestTimeout => "Your request timed out.".to_owned(),
            ApiError::InternalServerError(_) => "An internal error has occurred.".to_owned(),
            ApiError::DatabaseError(_) => "A database error occurred.".to_owned(),
            ApiError::PathRejection(_) => "This path is invalid.".to_owned(),
        }
    }

    /// Computes `client_message()`.
    pub fn message_for_client(&self) -> (text: String)
        ensures
            text@ == self.client_message(),
    {
        match self {
            ApiError::DatabaseError(StoreError::RowNotFound) => {
                "This data was not found in the database.".to_owned()
            },
            ApiError::PathRejection(rejection) => rejection.message.clone(),
            _ => self.to_string(),
        }
    }

    /// Computes `log_line()`.
    pub fn line_for_log(&self) -> (line: Option<String>)
        ensures
            match line {
                Some(text) => self.log_line() == Some(text@),
                None => self.log_line() is None,
            },
    {
        match self {
            ApiError::InternalServerError(cause) => Some(cause.clone()),
            ApiError::DatabaseError(StoreError::Unavailable(detail)) => Some(detail.clone()),
            ApiError::PathRejection(rejection) => {
                if self.status_code().as_u16() == 500 {
                    Some(rejection.message.clone())
                } else {
                    None
                }
            },
            _ => None,
        }
    }
}

/// Every error is answered with 400, 404, 408 or 500, and the server logs a
/// line for exactly those that are answered with 500.
pub proof fn logged_exactly_when_500(error: ApiError)
    ensures
        error.status() == 400 || error.status() == 404 || error.status() == 408 || error.status()
            == 500,
        error.log_line() is Some <==> error.status() == 500,
{
}

/// What the client is shown of an internal error or of a store that could not be
/// reached does not depend on the cause.
pub proof fn cause_is_not_shown(cause: String, other: String)
    ensures
        ApiError::InternalServerError(cause).client_message() == ApiError::InternalServerError(
            other,
        ).client_message(),
        ApiError::DatabaseError(StoreError::Unavailable(cause)).client_message()
            == ApiError::DatabaseError(StoreError::Unavailable(other)).client_message(),
{
}

/// The body of an error response.
#[derive(Debug)]
pub struct UserError {
    /// When the error was classified, as an RFC 3339 date and time.
    pub timestamp: String,
    /// The number of the status with which the error is answered.
    pub status: u16,
    /// A short, stable label for the error.
    pub error: &'static str,
    /// What happened, in words meant for the client.
    pub message: String,
}

impl UserError {
    /// The label of an error body: the caller's own label where it gives one,
    /// else the canonical reason phrase of the status, else "Unknown Error".
    pub open spec fn label_of(
        custom_error: Option<Seq<char>>,
        canonical_reason: Option<Seq<char>>,
    ) -> Seq<char> {
        match custom_error {
            Some(label) => label,
            None => match canonical_reason {
                Some(phrase) => phrase,
                None => "Unknown Error"@,
            },
        }
    }

    /// Chooses the label of an error body from the caller's own label and the
    /// canonical reason phrase of the status, either of which may be missing.
    pub fn label(
        custom_error: Option<&'static str>,
        canonical_reason: Option<&'static str>,
    ) -> (label: &'static str)
        ensures
            label@ == Self::label_of(
                match custom_error {
                    Some(text) => Some(text@),
                    None => None,
                },
                match canonical_reason {
                    Some(text) => Some(text@),
                    None => None,
                },
            ),
    {
        match custom_error {
            Some(label) => label,
            None => match canonical_reason {
                Some(phrase) => phrase,
                None => "Unknown Error",
            },
        }
    }

    /// The error body with the given time of classification, status, label and
    /// message.
    pub fn stamped(
        timestamp: String,
        status_code: StatusCode,
        label: &'static str,
        message: &str,
    ) -> (body: UserError)
        ensures
            body.timestamp == timestamp,
            body.status == status_code@,
            body.error == label,
            body.message@ == message@,
    {
        UserError {
            timestamp,
            status: status_code.as_u16(),
            error: label,
            message: message.to_owned(),
        }
    }

    /// The error body for a status and a message, labelled by `custom_error` or,
    /// without one, by the reason phrase of the status, and stamped with the
    /// current time.
    pub fn new(
        status_code: StatusCode,
        custom_error: Option<&'static str>,
        message: &str,
    ) -> (body: UserError)
        ensures
            body.status == status_code@,
            body.error@ == Self::label_of(
                match custom_error {
                    Some(text) => Some(text@),
                    None => None,
                },
                reason_phrase(status_code@),
            ),
            body.message@ == message@,
    {
        let error = Self::label(custom_error, status_code.canonical_reason());
        let timestamp = now_rfc3339();
        Self::stamped(timestamp, status_code, error, message)
    }
}

/// Reads the clock with `chrono::Utc::now` and writes the instant with
/// `chrono::DateTime::to_rfc3339`.
///
/// Trusted, and nothing is claimed of the text: it differs from call to call.
/// `Utc::now` panics where the system clock is set before 1970.
#[verifier::external_body]
fn now_rfc3339() -> (timestamp: String) {
    chrono::Utc::now().to_rfc3339()
}

/// An error as it is answered: the status of the response, its body, and the
/// line that the server logs before it sends them, if it logs one.
#[derive(Debug)]
pub struct ErrorResponse {
    pub status: StatusCode,
    pub body: UserError,
    pub log: Option<String>,
}

impl ApiError {
    /// Classifies the error: the status is `status()`, the body holds the same
    /// status, its reason phrase as the label and `client_message()` as the
    /// message, and the line to log is `log_line()`.
    pub fn into_response(self) -> (response: ErrorResponse)
        ensures
            response.status@ == self.status(),
            response.body.status == self.status(),
            response.body.error@ == self.reason(),
            response.body.message@ == self.client_message(),
            match response.log {
                Some(text) => self.log_line() == Some(text@),
                None => self.log_line() is None,
            },
    {
        let status = self.status_code();
        let message = self.message_for_client();
        let log = self.line_for_log();
        let body = UserError::new(status, None, message.as_str());
        ErrorResponse { status, body, log }
    }
}

impl From<StoreError> for ApiError {
    fn from(store_error: StoreError) -> (error: ApiError) {
        ApiError::DatabaseError(store_error)
    }
}

impl FromSpecImpl<StoreError> for ApiError {
    open spec fn obeys_from_spec() -> bool {
        true
    }

    open spec fn from_spec(store_error: StoreError) -> ApiError {
        ApiError::DatabaseError(store_error)
    }
}

} // verus!
