use vstd::prelude::*;
use crate::json::{json_string, json_string_literal};

verus! {

/// 200 OK.
pub const OK: u16 = 200;
/// 202 Accepted.
pub const ACCEPTED: u16 = 202;
/// 400 Bad Request.
pub const BAD_REQUEST: u16 = 400;
/// 401 Unauthorized.
pub const UNAUTHORIZED: u16 = 401;
/// 404 Not Found.
pub const NOT_FOUND: u16 = 404;
/// 415 Unsupported Media Type.
pub const UNSUPPORTED_MEDIA_TYPE: u16 = 415;
/// 500 Internal Server Error.
pub const INTERNAL_SERVER_ERROR: u16 = 500;

/// The text of an optional string.
pub open spec fn opt_text(o: Option<String>) -> Option<Seq<char>> {
    match o {
        Some(s) => Some(s@),
        None => None,
    }
}

/// A failed request: the HTTP status to answer with, a line for the server
/// log, and a message for the client.
#[derive(Debug)]
pub struct ApiError {
    pub status_code: u16,
    pub log_message: Option<String>,
    pub http_message: Option<String>,
}

/// The mathematical content of an [`ApiError`].
pub struct ApiErrorView {
    pub status: u16,
    pub log: Option<Seq<char>>,
    pub http: Option<Seq<char>>,
}

impl View for ApiError {
    type V = ApiErrorView;

    open spec fn view(&self) -> ApiErrorView {
        ApiErrorView {
            status: self.status_code,
            log: opt_text(self.log_message),
            http: opt_text(self.http_message),
        }
    }
}

/// The message shown to a client whose request failed for an unexpected reason.
pub open spec fn unknown_error_message() -> Seq<char> {
    "Une erreur inconnue s'est produite, veuillez réessayer."@
}

/// The text an error shows when printed: the log line, else the client
/// message, else a fixed notice.
pub open spec fn error_text(e: ApiErrorView) -> Seq<char> {
    match e.log {
        Some(l) => l,
        None => match e.http {
            Some(h) => h,
            None => "No error messages."@,
        },
    }
}

/// The JSON document sent to the client with a failure message.
pub open spec fn failure_body(message: Seq<char>) -> Seq<char> {
    "{\"message\":"@ + json_string(message) + ",\"status\":\"failed\"}"@
}

/// An error that is logged and answered with `status` and no body.
pub open spec fn logged_error(status: u16, line: Seq<char>) -> ApiErrorView {
    ApiErrorView { status, log: Some(line), http: None }
}

/// An error answered with `status` alone.
pub open spec fn empty_error(status: u16) -> ApiErrorView {
    ApiErrorView { status, log: None, http: None }
}

/// What is sent back for a failed request.
#[derive(Debug)]
pub struct ErrorReply {
    /// The HTTP status.
    pub status: u16,
    /// The line to write to the error log, if any.
    pub log_line: Option<String>,
    /// The `application/json` body, if any; without one the reply is empty.
    pub json_body: Option<String>,
}

impl ApiError {
    /// An error with all three parts given.
    pub fn new(status_code: u16, log_message: Option<String>, http_message: Option<String>) -> (res: Self)
        ensures
            res.status_code == status_code,
            res.log_message == log_message,
            res.http_message == http_message,
    {
        ApiError { status_code, log_message, http_message }
    }

    /// An error that is logged and answered with `status_code` alone.
    pub fn new_log(status_code: u16, log_message: &str) -> (res: Self)
        ensures
            res@ == logged_error(status_code, log_message@),
    {
        ApiError { status_code, log_message: Some(log_message.to_owned()), http_message: None }
    }

    /// An error answered with `status_code` and a message for the client.
    pub fn new_message(status_code: u16, http_message: &str) -> (res: Self)
        ensures
            res@ == (ApiErrorView { status: status_code, log: None, http: Some(http_message@) }),
    {
        ApiError { status_code, log_message: None, http_message: Some(http_message.to_owned()) }
    }

    /// An error that is logged and answered with a generic apology.
    pub fn new_unknown(status_code: u16, log_message: &str) -> (res: Self)
        ensures
            res@ == (ApiErrorView {
                status: status_code,
                log: Some(log_message@),
                http: Some(unknown_error_message()),
            }),
    {
        ApiError {
            status_code,
            log_message: Some(log_message.to_owned()),
            http_message: Some("Une erreur inconnue s'est produite, veuillez réessayer.".to_owned()),
        }
    }

    /// An error answered with `status_code` alone.
    pub fn new_empty(status_code: u16) -> (res: Self)
        ensures
            res@ == empty_error(status_code),
    {
        ApiError { status_code, log_message: None, http_message: None }
    }

    /// The text of the error: the log line if there is one, else the client
    /// message, else "No error messages.".
    pub fn message(&self) -> (res: String)
        ensures
            res@ == error_text(self@),
    {
        match &self.log_message {
            Some(l) => l.clone(),
            None => match &self.http_message {
                Some(h) => h.clone(),
                None => "No error messages.".to_owned(),
            },
        }
    }

    /// What to send back: the status, the log line, and, when there is a
    /// client message, a JSON body `{"message":...,"status":"failed"}`.
    pub fn error_response(&self) -> (res: ErrorReply)
        ensures
            res.status == self.status_code,
            opt_text(res.log_line) == self@.log,
            res.json_body is Some <==> self.http_message is Some,
            self.http_message matches Some(m) ==> res.json_body.unwrap()@ == failure_body(m@),
    {
        let log_line = match &self.log_message {
            Some(l) => Some(l.clone()),
            None => None,
        };
        let json_body = match &self.http_message {
            Some(m) => {
                let mut body = "{\"message\":".to_owned();
                let quoted = json_string_literal(m.as_str());
                body.append(quoted.as_str());
                body.append(",\"status\":\"failed\"}");
                Some(body)
            },
            None => None,
        };
        ErrorReply { status: self.status_code, log_line, json_body }
    }

    /// A failure of the database layer.
    pub fn from_diesel(detail: &str) -> (res: Self)
        ensures
            res@ == logged_error(INTERNAL_SERVER_ERROR, "A diesel error has occurred: "@ + detail@),
    {
        Self::prefixed(INTERNAL_SERVER_ERROR, "A diesel error has occurred: ", detail)
    }

    /// A missing or unreadable environment variable.
    pub fn from_var(detail: &str) -> (res: Self)
        ensures
            res@ == logged_error(INTERNAL_SERVER_ERROR, "A var error has occurred: "@ + detail@),
    {
        Self::prefixed(INTERNAL_SERVER_ERROR, "A var error has occurred: ", detail)
    }

    /// A failed file operation.
    pub fn from_io(detail: &str) -> (res: Self)
        ensures
            res@ == logged_error(INTERNAL_SERVER_ERROR, "A std io error has occurred: "@ + detail@),
    {
        Self::prefixed(INTERNAL_SERVER_ERROR, "A std io error has occurred: ", detail)
    }

    /// A clock that reads before the Unix epoch.
    pub fn from_system_time(detail: &str) -> (res: Self)
        ensures
            res@ == logged_error(
                INTERNAL_SERVER_ERROR,
                "A generate unixtime error has occurred: "@ + detail@,
            ),
    {
        Self::prefixed(INTERNAL_SERVER_ERROR, "A generate unixtime error has occurred: ", detail)
    }

    /// No database connection could be taken from the pool.
    pub fn from_pool(detail: &str) -> (res: Self)
        ensures
            res@ == logged_error(
                INTERNAL_SERVER_ERROR,
                "Failed to retrieve a database connection from the pool: "@ + detail@,
            ),
    {
        Self::prefixed(
            INTERNAL_SERVER_ERROR,
            "Failed to retrieve a database connection from the pool: ",
            detail,
        )
    }

    /// An upload id that does not parse; this one is the client's fault.
    pub fn from_uuid(detail: &str) -> (res: Self)
        ensures
            res@ == logged_error(BAD_REQUEST, "Error with the given uuid: "@ + detail@),
    {
        Self::prefixed(BAD_REQUEST, "Error with the given uuid: ", detail)
    }

    /// A page template that failed to render.
    pub fn from_template(detail: &str) -> (res: Self)
        ensures
            res@ == logged_error(INTERNAL_SERVER_ERROR, "Error while parsing template: "@ + detail@),
    {
        Self::prefixed(INTERNAL_SERVER_ERROR, "Error while parsing template: ", detail)
    }

    fn prefixed(status_code: u16, prefix: &str, detail: &str) -> (res: Self)
        ensures
            res@ == logged_error(status_code, prefix@ + detail@),
    {
        let mut line = prefix.to_owned();
        line.append(detail);
        ApiError { status_code, log_message: Some(line), http_message: None }
    }
}

} // verus!
