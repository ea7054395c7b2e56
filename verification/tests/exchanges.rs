use doup::api_error::ApiError;
use doup::routes::generate_upload::{generate_upload, Info as GenerateInfo};
use doup::routes::get_upload::{get_upload, Info as GetInfo};
use doup::routes::give_upload::{give_upload, Info as GiveInfo};
use doup::routes::upload::{upload, Info as UploadInfo};
use doup::routes::{Action, Body, Event, Exchange, Reply, Route, Stage};

const ID: u128 = 0x550e8400e29b41d4a716446655440000;
const ID_TEXT: &str = "550e8400-e29b-41d4-a716-446655440000";
const FAR_FUTURE: i64 = 4_000_000_000;
const PAST: i64 = 1_000_000_000;
const NOW: i64 = 1_700_000_000;

fn zip_bytes() -> Vec<u8> {
    let mut v = vec![0x50, 0x4B, 0x03, 0x04];
    v.extend_from_slice(&[0u8; 60]);
    v
}

fn png_bytes() -> Vec<u8> {
    let mut v = vec![0x89, b'P', b'N', b'G', 0x0D, 0x0A, 0x1A, 0x0A];
    v.extend_from_slice(&[0u8; 24]);
    v
}

fn step(ex: Exchange, event: Event) -> (Exchange, Action) {
    assert!(ex.accepts(&event));
    ex.step_at(event, NOW)
}

fn reply(action: Action) -> Reply {
    match action {
        Action::Respond(Ok(r)) => r,
        _ => panic!("expected a successful reply"),
    }
}

fn error(action: Action) -> ApiError {
    match action {
        Action::Respond(Err(e)) => e,
        _ => panic!("expected an error reply"),
    }
}

fn text(body: &Body) -> &str {
    match body {
        Body::Text(t) => t,
        _ => panic!("expected a text body"),
    }
}

fn at_row(route: Route) -> Exchange {
    let (ex, action) = match route {
        Route::Upload => upload(&UploadInfo { uuid: ID_TEXT.to_string() }),
        Route::GetUpload => get_upload(&GetInfo { uuid: ID_TEXT.to_string(), file_name: Some("data.zip".to_string()) }),
        _ => {
            let (ex, _) = give_upload(&GiveInfo { token: "secret".to_string(), uuid: ID_TEXT.to_string() });
            step(ex, Event::Env(Ok("secret".to_string())))
        },
    };
    assert!(matches!(action, Action::AcquireConnection));
    assert_eq!(ex.id, ID);
    let (ex, action) = step(ex, Event::Connected(Ok(())));
    assert!(matches!(action, Action::CheckExists(id) if id == ID));
    let (ex, action) = step(ex, Event::Exists(Ok(true)));
    assert!(matches!(action, Action::FetchUpload(id) if id == ID));
    assert!(ex.stage == Stage::FetchingRow);
    ex
}

#[test]
fn generating_a_slot_hands_out_its_id() {
    let (ex, action) = generate_upload(&GenerateInfo { token: "secret".to_string() });
    assert!(matches!(&action, Action::ReadEnv(k) if k == "TOKEN"));
    let (ex, action) = step(ex, Event::Env(Ok("secret".to_string())));
    assert!(matches!(action, Action::AcquireConnection));
    assert!(ex.needs_clock(&Event::Connected(Ok(()))));
    let (ex, action) = step(ex, Event::Connected(Ok(())));
    assert!(matches!(action, Action::InsertUpload(expiration) if expiration == NOW + 600));
    let (ex, action) = step(ex, Event::Inserted(Ok(ID)));
    assert!(ex.is_finished());
    let r = reply(action);
    assert_eq!(r.status, 200);
    assert_eq!(r.content_type.as_deref(), Some("text/plain"));
    assert_eq!(text(&r.body), ID_TEXT);
    // the handed-out text is read back as the same slot
    let (back, _) = upload(&UploadInfo { uuid: text(&r.body).to_string() });
    assert_eq!(back.id, ID);
}

#[test]
fn a_wrong_token_is_refused() {
    let (ex, _) = generate_upload(&GenerateInfo { token: "guess".to_string() });
    let (ex, action) = step(ex, Event::Env(Ok("secret".to_string())));
    assert!(ex.is_finished());
    let e = error(action);
    assert_eq!((e.status_code, e.log_message, e.http_message), (401, None, None));

    let (ex, _) = give_upload(&GiveInfo { token: "guess".to_string(), uuid: ID_TEXT.to_string() });
    let (_, action) = step(ex, Event::Env(Ok("secret".to_string())));
    assert_eq!(error(action).status_code, 401);
}

#[test]
fn a_missing_token_variable_is_an_internal_error() {
    let (ex, _) = generate_upload(&GenerateInfo { token: "secret".to_string() });
    let (_, action) = step(ex, Event::Env(Err("environment variable not found".to_string())));
    let e = error(action);
    assert_eq!(e.status_code, 500);
    assert_eq!(e.log_message.as_deref(), Some("A var error has occurred: environment variable not found"));
}

#[test]
fn a_bad_id_is_a_bad_request() {
    let (ex, action) = upload(&UploadInfo { uuid: String::new() });
    assert!(ex.is_finished());
    let e = error(action);
    assert_eq!(e.status_code, 400);
    assert_eq!(e.log_message.as_deref(), Some("Error with the given uuid: invalid length: found 0"));

    let (_, action) = get_upload(&GetInfo { uuid: "not-an-id".to_string(), file_name: None });
    let e = error(action);
    assert_eq!(e.status_code, 400);
    assert!(e.log_message.unwrap().starts_with("Error with the given uuid: "));
}

#[test]
fn ids_are_read_in_every_printed_form() {
    for form in [
        "550E8400-E29B-41D4-A716-446655440000",
        "550e8400e29b41d4a716446655440000",
        "{550e8400-e29b-41d4-a716-446655440000}",
        "urn:uuid:550e8400-e29b-41d4-a716-446655440000",
    ] {
        let (ex, action) = upload(&UploadInfo { uuid: form.to_string() });
        assert!(matches!(action, Action::AcquireConnection));
        assert_eq!(ex.id, ID);
    }
}

#[test]
fn pool_and_database_failures_are_internal_errors() {
    let (ex, _) = upload(&UploadInfo { uuid: ID_TEXT.to_string() });
    let (_, action) = step(ex, Event::Connected(Err("timed out".to_string())));
    let e = error(action);
    assert_eq!(e.status_code, 500);
    assert_eq!(e.log_message.as_deref(), Some("Failed to retrieve a database connection from the pool: timed out"));

    let ex = at_row(Route::Upload);
    let (_, action) = step(ex, Event::Row(Err("Record not found".to_string())));
    let e = error(action);
    assert_eq!(e.status_code, 500);
    assert_eq!(e.log_message.as_deref(), Some("A diesel error has occurred: Record not found"));
}

#[test]
fn an_unknown_slot_is_not_found() {
    for route in [Route::Upload, Route::GetUpload, Route::GiveUpload] {
        let ex = at_row(route);
        let mut ex = ex;
        ex.stage = Stage::CheckingExists;
        let (ex, action) = step(ex, Event::Exists(Ok(false)));
        assert!(ex.is_finished());
        let e = error(action);
        assert_eq!((e.status_code, e.log_message, e.http_message), (404, None, None));
    }
}

#[test]
fn an_expired_slot_is_not_found_on_every_route() {
    for route in [Route::Upload, Route::GetUpload, Route::GiveUpload] {
        for getted in [false, true] {
            let (_, action) = step(at_row(route), Event::Row(Ok((PAST, getted))));
            assert_eq!(error(action).status_code, 404);
        }
    }
}

#[test]
fn an_open_slot_shows_the_upload_page() {
    let (ex, action) = step(at_row(Route::Upload), Event::Row(Ok((FAR_FUTURE, false))));
    assert!(matches!(action, Action::RenderUploadPage));
    let (ex, action) = step(ex, Event::Rendered(Ok("<html></html>".to_string())));
    assert!(ex.is_finished());
    let r = reply(action);
    assert_eq!(r.status, 200);
    assert_eq!(r.content_type.as_deref(), Some("text/html"));
    assert_eq!(text(&r.body), "<html></html>");
}

#[test]
fn a_page_that_does_not_render_is_an_internal_error() {
    let (ex, _) = step(at_row(Route::Upload), Event::Row(Ok((FAR_FUTURE, false))));
    let (_, action) = step(ex, Event::Rendered(Err("missing template".to_string())));
    let e = error(action);
    assert_eq!(e.status_code, 500);
    assert_eq!(e.log_message.as_deref(), Some("Error while parsing template: missing template"));
}

#[test]
fn a_filled_slot_is_closed_to_visitors() {
    for route in [Route::Upload, Route::GetUpload] {
        let (_, action) = step(at_row(route), Event::Row(Ok((FAR_FUTURE, true))));
        assert_eq!(error(action).status_code, 404);
    }
}

#[test]
fn an_archive_fills_the_slot() {
    let (ex, action) = step(at_row(Route::GetUpload), Event::Row(Ok((FAR_FUTURE, false))));
    let path = format!("apps/files/{ID_TEXT}");
    assert!(matches!(&action, Action::SaveFile(p) if *p == path));
    let (ex, action) = step(ex, Event::Saved(Ok(())));
    assert!(matches!(&action, Action::ReadFile(p) if *p == path));
    let (ex, action) = step(ex, Event::FileRead(Ok(zip_bytes())));
    assert!(matches!(action, Action::MarkGetted(id) if id == ID));
    let (ex, action) = step(ex, Event::Updated(Ok(())));
    assert!(ex.is_finished());
    let r = reply(action);
    assert_eq!(r.status, 200);
    assert_eq!(r.content_type.as_deref(), Some("text/plain"));
    assert_eq!(text(&r.body), "Done");
}

#[test]
fn a_file_of_unknown_type_is_deleted_and_refused() {
    let (ex, _) = step(at_row(Route::GetUpload), Event::Row(Ok((FAR_FUTURE, false))));
    let (ex, _) = step(ex, Event::Saved(Ok(())));
    let (ex, action) = step(ex, Event::FileRead(Ok(b"hello".to_vec())));
    let path = format!("apps/files/{ID_TEXT}");
    assert!(matches!(&action, Action::RemoveFile(p) if *p == path));
    let (ex, action) = step(ex, Event::Removed(Ok(())));
    assert!(ex.is_finished());
    let e = error(action);
    assert_eq!((e.status_code, e.log_message, e.http_message), (415, None, None));
}

#[test]
fn a_known_file_that_is_no_archive_is_refused_and_kept() {
    let (ex, _) = step(at_row(Route::GetUpload), Event::Row(Ok((FAR_FUTURE, false))));
    let (ex, _) = step(ex, Event::Saved(Ok(())));
    let (ex, action) = step(ex, Event::FileRead(Ok(png_bytes())));
    assert!(ex.is_finished());
    assert_eq!(error(action).status_code, 415);
}

#[test]
fn file_failures_are_internal_errors() {
    let (ex, _) = step(at_row(Route::GetUpload), Event::Row(Ok((FAR_FUTURE, false))));
    let (_, action) = step(ex, Event::Saved(Err("Permission denied (os error 13)".to_string())));
    let e = error(action);
    assert_eq!(e.status_code, 500);
    assert_eq!(e.log_message.as_deref(), Some("A std io error has occurred: Permission denied (os error 13)"));
}

#[test]
fn a_failed_mark_is_an_internal_error() {
    let (ex, _) = step(at_row(Route::GetUpload), Event::Row(Ok((FAR_FUTURE, false))));
    let (ex, _) = step(ex, Event::Saved(Ok(())));
    let (ex, _) = step(ex, Event::FileRead(Ok(zip_bytes())));
    let (_, action) = step(ex, Event::Updated(Err("connection reset".to_string())));
    assert_eq!(error(action).log_message.as_deref(), Some("A diesel error has occurred: connection reset"));
}

#[test]
fn a_pending_slot_is_reported_accepted() {
    let (ex, action) = step(at_row(Route::GiveUpload), Event::Row(Ok((FAR_FUTURE, false))));
    assert!(ex.is_finished());
    let r = reply(action);
    assert_eq!(r.status, 202);
    assert_eq!(r.content_type, None);
    assert_eq!(r.disposition, None);
    assert!(matches!(r.body, Body::Empty));
}

#[test]
fn a_filled_slot_is_downloaded_as_an_attachment() {
    let (ex, action) = step(at_row(Route::GiveUpload), Event::Row(Ok((FAR_FUTURE, true))));
    let path = format!("apps/files/{ID_TEXT}");
    assert!(matches!(&action, Action::ReadFile(p) if *p == path));
    let (ex, action) = step(ex, Event::FileRead(Ok(zip_bytes())));
    assert!(ex.is_finished());
    let r = reply(action);
    assert_eq!(r.status, 200);
    assert_eq!(r.content_type.as_deref(), Some("application/zip"));
    assert_eq!(r.disposition, Some(format!("attachment; filename=\"{ID_TEXT}\"")));
    assert!(matches!(r.body, Body::Binary(ref b) if *b == zip_bytes()));
}

#[test]
fn a_stored_file_of_unknown_type_is_refused() {
    let (ex, _) = step(at_row(Route::GiveUpload), Event::Row(Ok((FAR_FUTURE, true))));
    let (_, action) = step(ex, Event::FileRead(Ok(b"plain words".to_vec())));
    assert_eq!(error(action).status_code, 415);
}

#[test]
fn step_at_uses_the_given_time() {
    let (_, action) = at_row(Route::Upload).step_at(Event::Row(Ok((1_000, false))), 1_000);
    assert!(matches!(action, Action::RenderUploadPage));
    let (_, action) = at_row(Route::Upload).step_at(Event::Row(Ok((1_000, false))), 1_001);
    assert_eq!(error(action).status_code, 404);
}

#[test]
fn only_slot_creation_and_row_checks_need_the_clock() {
    let (ex, _) = upload(&UploadInfo { uuid: ID_TEXT.to_string() });
    assert!(!ex.needs_clock(&Event::Connected(Ok(()))));
    let ex = at_row(Route::Upload);
    assert!(ex.needs_clock(&Event::Row(Ok((1, false)))));
    assert!(!ex.needs_clock(&Event::Exists(Ok(true))));
}

#[test]
fn a_finished_request_takes_no_event() {
    let (ex, _) = upload(&UploadInfo { uuid: String::new() });
    assert!(!ex.accepts(&Event::Connected(Ok(()))));
    let (ex, _) = upload(&UploadInfo { uuid: ID_TEXT.to_string() });
    assert!(!ex.accepts(&Event::Exists(Ok(true))));
}
