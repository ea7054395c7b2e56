use doup::api_error::{ApiError, BAD_REQUEST, INTERNAL_SERVER_ERROR, NOT_FOUND, UNAUTHORIZED};

#[test]
fn constructors_keep_their_fields() {
    let e = ApiError::new(NOT_FOUND, Some("log".to_string()), Some("http".to_string()));
    assert_eq!(e.status_code, 404);
    assert_eq!(e.log_message.as_deref(), Some("log"));
    assert_eq!(e.http_message.as_deref(), Some("http"));

    let e = ApiError::new_log(INTERNAL_SERVER_ERROR, "boom");
    assert_eq!(e.status_code, 500);
    assert_eq!(e.log_message.as_deref(), Some("boom"));
    assert_eq!(e.http_message, None);

    let e = ApiError::new_message(BAD_REQUEST, "bad input");
    assert_eq!(e.status_code, 400);
    assert_eq!(e.log_message, None);
    assert_eq!(e.http_message.as_deref(), Some("bad input"));

    let e = ApiError::new_empty(UNAUTHORIZED);
    assert_eq!(e.status_code, 401);
    assert_eq!(e.log_message, None);
    assert_eq!(e.http_message, None);
}

#[test]
fn unknown_error_has_a_generic_client_message() {
    let e = ApiError::new_unknown(INTERNAL_SERVER_ERROR, "db down");
    assert_eq!(e.log_message.as_deref(), Some("db down"));
    assert_eq!(
        e.http_message.as_deref(),
        Some("Une erreur inconnue s'est produite, veuillez réessayer.")
    );
}

#[test]
fn message_prefers_the_log_line() {
    let both = ApiError::new(500, Some("for the log".to_string()), Some("for the client".to_string()));
    assert_eq!(both.message(), "for the log");
    let client_only = ApiError::new_message(400, "for the client");
    assert_eq!(client_only.message(), "for the client");
    let none = ApiError::new_empty(404);
    assert_eq!(none.message(), "No error messages.");
}

#[test]
fn error_response_without_client_message_has_no_body() {
    let r = ApiError::new_log(500, "hidden").error_response();
    assert_eq!(r.status, 500);
    assert_eq!(r.log_line.as_deref(), Some("hidden"));
    assert_eq!(r.json_body, None);

    let r = ApiError::new_empty(404).error_response();
    assert_eq!(r.status, 404);
    assert_eq!(r.log_line, None);
    assert_eq!(r.json_body, None);
}

#[test]
fn error_response_with_client_message_is_json() {
    let r = ApiError::new_message(400, "try again").error_response();
    assert_eq!(r.status, 400);
    assert_eq!(r.log_line, None);
    assert_eq!(r.json_body.as_deref(), Some(r#"{"message":"try again","status":"failed"}"#));
}

#[test]
fn error_response_escapes_the_message() {
    let r = ApiError::new_message(400, "a \"quoted\" \\ line\nnext\u{1}").error_response();
    assert_eq!(
        r.json_body.as_deref(),
        Some(r#"{"message":"a \"quoted\" \\ line\nnext\u0001","status":"failed"}"#)
    );
    // the body is the document a JSON library produces for the same fields
    let parsed: serde_json::Value = serde_json::from_str(r.json_body.as_deref().unwrap()).unwrap();
    assert_eq!(parsed["message"], "a \"quoted\" \\ line\nnext\u{1}");
    assert_eq!(parsed["status"], "failed");
}

#[test]
fn outside_failures_become_logged_errors() {
    let e = ApiError::from_diesel("Record not found");
    assert_eq!((e.status_code, e.message()), (500, "A diesel error has occurred: Record not found".to_string()));
    assert_eq!(e.http_message, None);
    let e = ApiError::from_var("environment variable not found");
    assert_eq!(e.message(), "A var error has occurred: environment variable not found");
    assert_eq!(e.status_code, 500);
    let e = ApiError::from_io("No such file or directory (os error 2)");
    assert_eq!(e.message(), "A std io error has occurred: No such file or directory (os error 2)");
    let e = ApiError::from_system_time("second time provided was later than self");
    assert_eq!(e.message(), "A generate unixtime error has occurred: second time provided was later than self");
    let e = ApiError::from_pool("timed out");
    assert_eq!(e.message(), "Failed to retrieve a database connection from the pool: timed out");
    let e = ApiError::from_uuid("invalid length: found 3");
    assert_eq!((e.status_code, e.message()), (400, "Error with the given uuid: invalid length: found 3".to_string()));
    let e = ApiError::from_template("missing field");
    assert_eq!(e.message(), "Error while parsing template: missing field");
    assert_eq!(e.status_code, 500);
}
