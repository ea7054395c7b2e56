use vstd::prelude::*;
use crate::api_error::{empty_error, ApiErrorView, ACCEPTED, NOT_FOUND, UNAUTHORIZED};
use crate::ids::{id_text, lemma_id_text_is_plain_name, uuid_parse_str};
use crate::clock::{EARLIEST_TIMESTAMP, LATEST_TIMESTAMP};
use crate::database::models::uploads::{expiration_after, is_expired};
use crate::file_type::inferred_type;
use crate::routes::get_upload::upload_destination;
use crate::routes::give_upload::stored_file;
use crate::routes::{
    answers, fail, fresh, next, reads_clock, stage_fits_route, start, ActionView, BodyView, EventView, ExchangeView, ReplyView, Route,
    Stage,
};

verus! {

/// At most how many more pieces of outside work a request in `stage` waits for.
pub open spec fn remaining_work(stage: Stage) -> nat {
    match stage {
        Stage::ReadingToken => 7,
        Stage::Connecting => 6,
        Stage::CheckingExists => 5,
        Stage::FetchingRow => 4,
        Stage::SavingFile => 3,
        Stage::ReadingUpload => 2,
        Stage::Inserting => 1,
        Stage::Rendering => 1,
        Stage::RemovingUpload => 1,
        Stage::MarkingGetted => 1,
        Stage::ReadingStored => 1,
        Stage::Finished => 0,
    }
}

/// Every request is answered: each step does strictly less work remain,
/// keeps the route, stays in a stage of that route, and ends the request
/// exactly when it answers it. An answered request takes no more events.
pub proof fn lemma_requests_are_answered(ex: ExchangeView, event: EventView, now: i64)
    requires
        stage_fits_route(ex.stage, ex.route),
        answers(ex.stage, event),
    ensures
        remaining_work(next(ex, event, now).0.stage) < remaining_work(ex.stage),
        next(ex, event, now).0.route == ex.route,
        stage_fits_route(next(ex, event, now).0.stage, ex.route),
        (next(ex, event, now).0.stage == Stage::Finished) == (next(ex, event, now).1 is Respond),
        !answers(Stage::Finished, event),
{
}

/// The time handed to a step matters only where the step reads the clock:
/// when a slot is created and when its row is checked.
pub proof fn lemma_time_matters_only_where_read(ex: ExchangeView, event: EventView, t1: i64, t2: i64)
    requires
        !reads_clock(ex, event),
    ensures
        next(ex, event, t1) == next(ex, event, t2),
{
}

/// A client that presents a token other than the configured one is refused
/// with 401 before any database work.
pub proof fn lemma_wrong_token_refused(ex: ExchangeView, configured: Seq<char>, now: i64)
    requires
        ex.stage == Stage::ReadingToken,
        ex.token != configured,
    ensures
        next(ex, EventView::Env(Ok(configured)), now) == fail(ex, empty_error(UNAUTHORIZED)),
{
}

/// What a request does with a slot that still takes a file: the page is
/// rendered, the file is saved, or the download answers 202 (not yet filled).
pub open spec fn open_slot_action(req: ExchangeView) -> ActionView {
    match req.route {
        Route::Upload => ActionView::RenderUploadPage,
        Route::GetUpload => ActionView::SaveFile(upload_destination(req.file_name, req.id)),
        _ => ActionView::Respond(
            Ok(ReplyView { status: ACCEPTED, content_type: None, disposition: None, body: BodyView::Empty }),
        ),
    }
}

/// A slot generated at `created` is stored with an expiration ten minutes
/// later and unfilled; until then it is offered to its visitor (and reported
/// pending to the operator), and from then on every route answers 404.
pub proof fn lemma_generated_slot_lifetime(gen: ExchangeView, created: i64, req: ExchangeView, now: i64)
    requires
        gen.route == Route::GenerateUpload,
        gen.stage == Stage::Connecting,
        EARLIEST_TIMESTAMP <= created <= LATEST_TIMESTAMP,
        req.route != Route::GenerateUpload,
        req.stage == Stage::FetchingRow,
    ensures
        next(gen, EventView::Connected(Ok(())), created).1
            == ActionView::InsertUpload(expiration_after(created) as i64),
        now <= expiration_after(created) ==> next(
            req,
            EventView::Row(Ok((expiration_after(created) as i64, false))),
            now,
        ).1 == open_slot_action(req),
        now > expiration_after(created) ==> next(
            req,
            EventView::Row(Ok((expiration_after(created) as i64, false))),
            now,
        ).1 == ActionView::Respond(Err(empty_error(NOT_FOUND))),
{
}

/// A slot takes one file only: once filled, the upload page and a second
/// upload are answered 404, while the operator's download reads the stored
/// file (as long as the slot has not expired).
pub proof fn lemma_filled_slot_is_closed(req: ExchangeView, expiration: i64, now: i64)
    requires
        req.route != Route::GenerateUpload,
        req.stage == Stage::FetchingRow,
        !is_expired(expiration, now),
    ensures
        req.route == Route::GiveUpload ==> next(req, EventView::Row(Ok((expiration, true))), now).1
            == ActionView::ReadFile(stored_file(req.id)),
        req.route != Route::GiveUpload ==> next(req, EventView::Row(Ok((expiration, true))), now).1
            == ActionView::Respond(Err(empty_error(NOT_FOUND))),
{
}

/// A slot is marked filled only by an upload to that very slot, right after
/// the received file has been recognised as an archive. A file of unknown
/// type is deleted instead.
pub proof fn lemma_only_archives_fill_a_slot(ex: ExchangeView, event: EventView, now: i64)
    requires
        stage_fits_route(ex.stage, ex.route),
        answers(ex.stage, event),
    ensures
        next(ex, event, now).1 is MarkGetted ==> {
            &&& ex.route == Route::GetUpload
            &&& ex.stage == Stage::ReadingUpload
            &&& next(ex, event, now).1 == ActionView::MarkGetted(ex.id)
            &&& event matches EventView::FileRead(Ok(bytes))
            &&& inferred_type(bytes) matches Some((true, _))
        },
        ex.stage == Stage::ReadingUpload ==> (event matches EventView::FileRead(Ok(bytes)) ==> (
            inferred_type(bytes) is None ==> next(ex, event, now).1 == ActionView::RemoveFile(ex.destination))),
{
}

/// Whether an action changes what is stored (database rows or files).
pub open spec fn is_write(action: ActionView) -> bool {
    ||| action is InsertUpload
    ||| action is SaveFile
    ||| action is RemoveFile
    ||| action is MarkGetted
}

/// Viewing the upload page and downloading never change what is stored;
/// only generating a slot inserts a row.
pub proof fn lemma_readers_do_not_write(ex: ExchangeView, event: EventView, now: i64)
    requires
        stage_fits_route(ex.stage, ex.route),
        answers(ex.stage, event),
    ensures
        ex.route == Route::Upload || ex.route == Route::GiveUpload ==> !is_write(next(ex, event, now).1),
        ex.route == Route::GenerateUpload ==> (is_write(next(ex, event, now).1) ==> next(ex, event, now).1 is InsertUpload),
{
}

/// Whether `event` is a report of the outside work `action` asked for,
/// whatever its value: a success or a failure, of any size.
pub open spec fn reports(action: ActionView, event: EventView) -> bool {
    match action {
        ActionView::ReadEnv(_) => event is Env,
        ActionView::AcquireConnection => event is Connected,
        ActionView::InsertUpload(_) => event is Inserted,
        ActionView::CheckExists(_) => event is Exists,
        ActionView::FetchUpload(_) => event is Row,
        ActionView::RenderUploadPage => event is Rendered,
        ActionView::SaveFile(_) => event is Saved,
        ActionView::ReadFile(_) => event is FileRead,
        ActionView::RemoveFile(_) => event is Removed,
        ActionView::MarkGetted(_) => event is Updated,
        ActionView::Respond(_) => false,
    }
}

/// Whatever the work a request asks for produces, the request takes it as
/// its next event: acceptance depends on the kind of result only, never on
/// its value (a file read is taken whatever the file's size or contents).
pub proof fn lemma_every_reported_result_is_accepted(
    ex: ExchangeView,
    event: EventView,
    now: i64,
    report: EventView,
    route: Route,
    token: Seq<char>,
    text: Seq<char>,
    file_name: Option<Seq<char>>,
    read: Result<Seq<u8>, Seq<char>>,
)
    requires
        stage_fits_route(ex.stage, ex.route),
        answers(ex.stage, event),
    ensures
        reports(next(ex, event, now).1, report) ==> answers(next(ex, event, now).0.stage, report),
        ({
            let first = start(fresh(route, token, text, file_name));
            &&& stage_fits_route(first.0.stage, route)
            &&& reports(first.1, report) ==> answers(first.0.stage, report)
        }),
        answers(Stage::ReadingUpload, EventView::FileRead(read)),
        answers(Stage::ReadingStored, EventView::FileRead(read)),
{
}

/// The operator's token check: a failure to read `TOKEN` is a logged 500; a
/// different token is 401 with nothing logged or shown; the right token
/// goes on to the database (new slot) or to reading the slot id (download),
/// a bad id being a logged 400.
pub proof fn lemma_token_check_replies(ex: ExchangeView, configured: Seq<char>, e: Seq<char>, now: i64)
    requires
        ex.stage == Stage::ReadingToken,
        ex.route == Route::GenerateUpload || ex.route == Route::GiveUpload,
    ensures
        next(ex, EventView::Env(Err(e)), now) == (
            ExchangeView { stage: Stage::Finished, ..ex },
            ActionView::Respond(Err(ApiErrorView { status: 500, log: Some("A var error has occurred: "@ + e), http: None })),
        ),
        configured != ex.token ==> next(ex, EventView::Env(Ok(configured)), now) == (
            ExchangeView { stage: Stage::Finished, ..ex },
            ActionView::Respond(Err(ApiErrorView { status: 401, log: None, http: None })),
        ),
        ex.route == Route::GenerateUpload ==> next(ex, EventView::Env(Ok(ex.token)), now) == (
            ExchangeView { stage: Stage::Connecting, ..ex },
            ActionView::AcquireConnection,
        ),
        ex.route == Route::GiveUpload ==> next(ex, EventView::Env(Ok(ex.token)), now) == match uuid_parse_str(ex.id_text) {
            Err(e) => (
                ExchangeView { stage: Stage::Finished, ..ex },
                ActionView::Respond(Err(ApiErrorView { status: 400, log: Some("Error with the given uuid: "@ + e), http: None })),
            ),
            Ok(id) => (ExchangeView { id, stage: Stage::Connecting, ..ex }, ActionView::AcquireConnection),
        },
{
}

/// Creating a slot: a connection failure is a logged 500; with a connection
/// the row is inserted with expiration exactly `now + 600`; the reply to a
/// successful insert is 200 `text/plain` holding the new id's text and no
/// other header; a failed insert is a logged 500.
pub proof fn lemma_new_slot_replies(ex: ExchangeView, now: i64, id: u128, e: Seq<char>)
    requires
        ex.route == Route::GenerateUpload,
        EARLIEST_TIMESTAMP <= now <= LATEST_TIMESTAMP,
    ensures
        ex.stage == Stage::Connecting ==> next(ex, EventView::Connected(Ok(())), now) == (
            ExchangeView { stage: Stage::Inserting, ..ex },
            ActionView::InsertUpload((now + 600) as i64),
        ),
        ex.stage == Stage::Connecting ==> next(ex, EventView::Connected(Err(e)), now) == (
            ExchangeView { stage: Stage::Finished, ..ex },
            ActionView::Respond(Err(ApiErrorView {
                status: 500,
                log: Some("Failed to retrieve a database connection from the pool: "@ + e),
                http: None,
            })),
        ),
        ex.stage == Stage::Inserting ==> next(ex, EventView::Inserted(Ok(id)), now) == (
            ExchangeView { stage: Stage::Finished, ..ex },
            ActionView::Respond(Ok(ReplyView {
                status: 200,
                content_type: Some("text/plain"@),
                disposition: None,
                body: BodyView::Text(id_text(id)),
            })),
        ),
        ex.stage == Stage::Inserting ==> next(ex, EventView::Inserted(Err(e)), now) == (
            ExchangeView { stage: Stage::Finished, ..ex },
            ActionView::Respond(Err(ApiErrorView { status: 500, log: Some("A diesel error has occurred: "@ + e), http: None })),
        ),
{
}

/// Looking a slot up: with a connection the slot's existence is asked; a
/// missing slot is 404 with nothing logged or shown; an existing one has
/// its row read; database failures are logged 500s.
pub proof fn lemma_slot_lookup_replies(ex: ExchangeView, now: i64, e: Seq<char>)
    requires
        ex.route != Route::GenerateUpload,
    ensures
        ex.stage == Stage::Connecting ==> next(ex, EventView::Connected(Ok(())), now) == (
            ExchangeView { stage: Stage::CheckingExists, ..ex },
            ActionView::CheckExists(ex.id),
        ),
        ex.stage == Stage::CheckingExists ==> next(ex, EventView::Exists(Ok(false)), now) == (
            ExchangeView { stage: Stage::Finished, ..ex },
            ActionView::Respond(Err(ApiErrorView { status: 404, log: None, http: None })),
        ),
        ex.stage == Stage::CheckingExists ==> next(ex, EventView::Exists(Ok(true)), now) == (
            ExchangeView { stage: Stage::FetchingRow, ..ex },
            ActionView::FetchUpload(ex.id),
        ),
        ex.stage == Stage::CheckingExists ==> next(ex, EventView::Exists(Err(e)), now) == (
            ExchangeView { stage: Stage::Finished, ..ex },
            ActionView::Respond(Err(ApiErrorView { status: 500, log: Some("A diesel error has occurred: "@ + e), http: None })),
        ),
        ex.stage == Stage::FetchingRow ==> next(ex, EventView::Row(Err(e)), now) == (
            ExchangeView { stage: Stage::Finished, ..ex },
            ActionView::Respond(Err(ApiErrorView { status: 500, log: Some("A diesel error has occurred: "@ + e), http: None })),
        ),
{
}

/// Checking a slot's row at `now`: the page and the upload are refused with
/// a bare 404 once the clock has passed the expiration or the slot is
/// filled, and otherwise render the page or save the file; the download is
/// a bare 404 once expired, a bare 202 while unfilled, and otherwise reads
/// `apps/files/<id>`.
pub proof fn lemma_row_check_replies(ex: ExchangeView, expiration: i64, getted: bool, now: i64)
    requires
        ex.stage == Stage::FetchingRow,
        ex.route != Route::GenerateUpload,
    ensures
        ex.route != Route::GiveUpload && (now > expiration || getted) ==> next(
            ex,
            EventView::Row(Ok((expiration, getted))),
            now,
        ) == (
            ExchangeView { stage: Stage::Finished, ..ex },
            ActionView::Respond(Err(ApiErrorView { status: 404, log: None, http: None })),
        ),
        ex.route == Route::Upload && now <= expiration && !getted ==> next(ex, EventView::Row(Ok((expiration, getted))), now)
            == (ExchangeView { stage: Stage::Rendering, ..ex }, ActionView::RenderUploadPage),
        ex.route == Route::GetUpload && now <= expiration && !getted ==> next(
            ex,
            EventView::Row(Ok((expiration, getted))),
            now,
        ) == (
            ExchangeView { destination: upload_destination(ex.file_name, ex.id), stage: Stage::SavingFile, ..ex },
            ActionView::SaveFile(upload_destination(ex.file_name, ex.id)),
        ),
        ex.route == Route::GiveUpload && now > expiration ==> next(ex, EventView::Row(Ok((expiration, getted))), now) == (
            ExchangeView { stage: Stage::Finished, ..ex },
            ActionView::Respond(Err(ApiErrorView { status: 404, log: None, http: None })),
        ),
        ex.route == Route::GiveUpload && now <= expiration && !getted ==> next(
            ex,
            EventView::Row(Ok((expiration, getted))),
            now,
        ) == (
            ExchangeView { stage: Stage::Finished, ..ex },
            ActionView::Respond(Ok(ReplyView { status: 202, content_type: None, disposition: None, body: BodyView::Empty })),
        ),
        ex.route == Route::GiveUpload && now <= expiration && getted ==> next(ex, EventView::Row(Ok((expiration, getted))), now)
            == (ExchangeView { stage: Stage::ReadingStored, ..ex }, ActionView::ReadFile("apps/files/"@ + id_text(ex.id))),
{
    reveal_strlit("apps/files");
    reveal_strlit("apps/files/");
    lemma_id_text_is_plain_name(ex.id);
    assert(stored_file(ex.id) =~= "apps/files/"@ + id_text(ex.id));
}

/// The upload page of an open slot is shown, not downloaded: 200
/// `text/html` with the rendered page as body and no `Content-Disposition`;
/// a page that does not render is a logged 500.
pub proof fn lemma_upload_page_replies(ex: ExchangeView, page: Seq<char>, e: Seq<char>, now: i64)
    requires
        ex.route == Route::Upload,
        ex.stage == Stage::Rendering,
    ensures
        next(ex, EventView::Rendered(Ok(page)), now) == (
            ExchangeView { stage: Stage::Finished, ..ex },
            ActionView::Respond(Ok(ReplyView {
                status: 200,
                content_type: Some("text/html"@),
                disposition: None,
                body: BodyView::Text(page),
            })),
        ),
        next(ex, EventView::Rendered(Err(e)), now) == (
            ExchangeView { stage: Stage::Finished, ..ex },
            ActionView::Respond(Err(ApiErrorView { status: 500, log: Some("Error while parsing template: "@ + e), http: None })),
        ),
{
}

/// Receiving a file: once saved it is read back from where it was saved; an
/// archive marks this slot filled and is answered 200 `text/plain` "Done"; a
/// file of unknown type is removed and then refused with a bare 415; a file
/// of another known type is refused with a bare 415 at once; file and
/// database failures are logged 500s.
pub proof fn lemma_received_file_replies(
    ex: ExchangeView,
    bytes: Seq<u8>,
    e: Seq<char>,
    now: i64,
)
    requires
        ex.route == Route::GetUpload,
    ensures
        ex.stage == Stage::SavingFile ==> next(ex, EventView::Saved(Ok(())), now) == (
            ExchangeView { stage: Stage::ReadingUpload, ..ex },
            ActionView::ReadFile(ex.destination),
        ),
        ex.stage == Stage::SavingFile ==> next(ex, EventView::Saved(Err(e)), now) == (
            ExchangeView { stage: Stage::Finished, ..ex },
            ActionView::Respond(Err(ApiErrorView { status: 500, log: Some("A std io error has occurred: "@ + e), http: None })),
        ),
        ex.stage == Stage::ReadingUpload ==> next(ex, EventView::FileRead(Ok(bytes)), now) == match inferred_type(bytes) {
            None => (ExchangeView { stage: Stage::RemovingUpload, ..ex }, ActionView::RemoveFile(ex.destination)),
            Some((is_archive, _)) => if is_archive {
                (ExchangeView { stage: Stage::MarkingGetted, ..ex }, ActionView::MarkGetted(ex.id))
            } else {
                (
                    ExchangeView { stage: Stage::Finished, ..ex },
                    ActionView::Respond(Err(ApiErrorView { status: 415, log: None, http: None })),
                )
            },
        },
        ex.stage == Stage::ReadingUpload ==> next(ex, EventView::FileRead(Err(e)), now) == (
            ExchangeView { stage: Stage::Finished, ..ex },
            ActionView::Respond(Err(ApiErrorView { status: 500, log: Some("A std io error has occurred: "@ + e), http: None })),
        ),
        ex.stage == Stage::RemovingUpload ==> next(ex, EventView::Removed(Ok(())), now) == (
            ExchangeView { stage: Stage::Finished, ..ex },
            ActionView::Respond(Err(ApiErrorView { status: 415, log: None, http: None })),
        ),
        ex.stage == Stage::RemovingUpload ==> next(ex, EventView::Removed(Err(e)), now) == (
            ExchangeView { stage: Stage::Finished, ..ex },
            ActionView::Respond(Err(ApiErrorView { status: 500, log: Some("A std io error has occurred: "@ + e), http: None })),
        ),
        ex.stage == Stage::MarkingGetted ==> next(ex, EventView::Updated(Ok(())), now) == (
            ExchangeView { stage: Stage::Finished, ..ex },
            ActionView::Respond(Ok(ReplyView {
                status: 200,
                content_type: Some("text/plain"@),
                disposition: None,
                body: BodyView::Text("Done"@),
            })),
        ),
        ex.stage == Stage::MarkingGetted ==> next(ex, EventView::Updated(Err(e)), now) == (
            ExchangeView { stage: Stage::Finished, ..ex },
            ActionView::Respond(Err(ApiErrorView { status: 500, log: Some("A diesel error has occurred: "@ + e), http: None })),
        ),
{
}

/// Downloading a stored file: its bytes are sent unchanged with status 200,
/// the recognised MIME type, and `Content-Disposition: attachment;
/// filename="<id>"`; a file of unknown type is a bare 415; a read failure
/// is a logged 500.
pub proof fn lemma_download_replies(ex: ExchangeView, bytes: Seq<u8>, e: Seq<char>, now: i64)
    requires
        ex.route == Route::GiveUpload,
        ex.stage == Stage::ReadingStored,
    ensures
        next(ex, EventView::FileRead(Ok(bytes)), now) == match inferred_type(bytes) {
            None => (
                ExchangeView { stage: Stage::Finished, ..ex },
                ActionView::Respond(Err(ApiErrorView { status: 415, log: None, http: None })),
            ),
            Some((_, mime)) => (
                ExchangeView { stage: Stage::Finished, ..ex },
                ActionView::Respond(Ok(ReplyView {
                    status: 200,
                    content_type: Some(mime),
                    disposition: Some("attachment; filename=\""@ + id_text(ex.id) + "\""@),
                    body: BodyView::Binary(bytes),
                })),
            ),
        },
        next(ex, EventView::FileRead(Err(e)), now) == (
            ExchangeView { stage: Stage::Finished, ..ex },
            ActionView::Respond(Err(ApiErrorView { status: 500, log: Some("A std io error has occurred: "@ + e), http: None })),
        ),
{
}

/// How each request starts: the operator's routes (new slot, download) first
/// read the `TOKEN` variable; the visitor's routes (page, upload) first read
/// the slot id, a bad id being refused with a logged 400 and a good one
/// going on to the database with that id.
pub proof fn lemma_request_starts(route: Route, token: Seq<char>, text: Seq<char>, file_name: Option<Seq<char>>)
    ensures
        ({
            let ex = fresh(route, token, text, file_name);
            &&& (route == Route::GenerateUpload || route == Route::GiveUpload) ==> start(ex) == (
                ExchangeView { stage: Stage::ReadingToken, ..ex },
                ActionView::ReadEnv("TOKEN"@),
            )
            &&& (route == Route::Upload || route == Route::GetUpload) ==> start(ex) == match uuid_parse_str(text) {
                Err(e) => (
                    ExchangeView { stage: Stage::Finished, ..ex },
                    ActionView::Respond(Err(ApiErrorView { status: 400, log: Some("Error with the given uuid: "@ + e), http: None })),
                ),
                Ok(id) => (ExchangeView { id, stage: Stage::Connecting, ..ex }, ActionView::AcquireConnection),
            }
        }),
{
}

} // verus!
