use vstd::prelude::*;
use crate::api_error::{ApiError, ApiErrorView, opt_text, logged_error, empty_error, OK, ACCEPTED, BAD_REQUEST, UNAUTHORIZED, NOT_FOUND, UNSUPPORTED_MEDIA_TYPE, INTERNAL_SERVER_ERROR};
use crate::clock::{EARLIEST_TIMESTAMP, LATEST_TIMESTAMP};
use crate::database::models::uploads::{accepts_file, expiration_after, expiration_for, is_expired};
use crate::file_type::{infer_file_type, inferred_type};
use crate::ids::{format_id, id_text, parse_id, uuid_parse_str};
use crate::utils::files::{verify_file, FileVerdict};
use crate::database::models::uploads::Uploads;
use crate::utils::parse_key;
use crate::routes::get_upload::{is_plain_file_name, upload_destination, upload_destination_path};
use crate::routes::give_upload::{stored_file, stored_file_path};

pub mod generate_upload;
pub mod get_upload;
pub mod give_upload;
pub mod laws;
pub mod service;
pub mod upload;

verus! {

/// The four requests the service answers.
#[derive(Debug, PartialEq, Eq, Structural, Clone, Copy)]
pub enum Route {
    /// The operator asks for a new upload slot.
    GenerateUpload,
    /// A visitor opens the upload page of a slot.
    Upload,
    /// A visitor sends the file for a slot.
    GetUpload,
    /// The operator fetches the file of a slot.
    GiveUpload,
}

/// Where a request stands: which outside work it waits for.
#[derive(Debug, PartialEq, Eq, Structural, Clone, Copy)]
pub enum Stage {
    ReadingToken,
    Connecting,
    Inserting,
    CheckingExists,
    FetchingRow,
    Rendering,
    SavingFile,
    ReadingUpload,
    RemovingUpload,
    MarkingGetted,
    ReadingStored,
    Finished,
}

/// The body of a successful reply.
#[derive(Debug)]
pub enum Body {
    Empty,
    Text(String),
    Binary(Vec<u8>),
}

/// A successful reply.
#[derive(Debug)]
pub struct Reply {
    pub status: u16,
    pub content_type: Option<String>,
    /// The `Content-Disposition` header, if any.
    pub disposition: Option<String>,
    pub body: Body,
}

/// The outside work a request asks for next, or its final answer.
#[derive(Debug)]
pub enum Action {
    /// Read an environment variable.
    ReadEnv(String),
    /// Take a connection from the database pool.
    AcquireConnection,
    /// Insert a slot row with this expiration and `getted` false, returning its id.
    InsertUpload(i64),
    /// Ask whether a slot row with this id exists.
    CheckExists(u128),
    /// Read the expiration and `getted` flag of the slot row with this id.
    FetchUpload(u128),
    /// Render the upload page.
    RenderUploadPage,
    /// Store the received file at this path, creating its directory if needed.
    SaveFile(String),
    /// Read the whole file at this path.
    ReadFile(String),
    /// Delete the file at this path.
    RemoveFile(String),
    /// Set `getted` on the slot row with this id.
    MarkGetted(u128),
    /// Answer the request.
    Respond(Result<Reply, ApiError>),
}

/// What the outside work produced. Errors carry the text of the failure.
#[derive(Debug)]
pub enum Event {
    Env(Result<String, String>),
    Connected(Result<(), String>),
    Inserted(Result<u128, String>),
    Exists(Result<bool, String>),
    Row(Result<(i64, bool), String>),
    Rendered(Result<String, String>),
    Saved(Result<(), String>),
    FileRead(Result<Vec<u8>, String>),
    Removed(Result<(), String>),
    Updated(Result<(), String>),
}

/// A request in progress.
#[derive(Debug)]
pub struct Exchange {
    pub route: Route,
    /// The token the client presented (routes that check one).
    pub token: String,
    /// The slot id the client gave, as text.
    pub id_text: String,
    /// The client's name for the uploaded file, if it gave one.
    pub file_name: Option<String>,
    /// The slot id, once parsed.
    pub id: u128,
    /// Where the received file is stored, once known.
    pub destination: String,
    pub stage: Stage,
}

// ---------------------------------------------------------------------------
// Mathematical views
// ---------------------------------------------------------------------------

pub enum BodyView {
    Empty,
    Text(Seq<char>),
    Binary(Seq<u8>),
}

pub struct ReplyView {
    pub status: u16,
    pub content_type: Option<Seq<char>>,
    pub disposition: Option<Seq<char>>,
    pub body: BodyView,
}

pub enum ActionView {
    ReadEnv(Seq<char>),
    AcquireConnection,
    InsertUpload(i64),
    CheckExists(u128),
    FetchUpload(u128),
    RenderUploadPage,
    SaveFile(Seq<char>),
    ReadFile(Seq<char>),
    RemoveFile(Seq<char>),
    MarkGetted(u128),
    Respond(Result<ReplyView, ApiErrorView>),
}

pub enum EventView {
    Env(Result<Seq<char>, Seq<char>>),
    Connected(Result<(), Seq<char>>),
    Inserted(Result<u128, Seq<char>>),
    Exists(Result<bool, Seq<char>>),
    Row(Result<(i64, bool), Seq<char>>),
    Rendered(Result<Seq<char>, Seq<char>>),
    Saved(Result<(), Seq<char>>),
    FileRead(Result<Seq<u8>, Seq<char>>),
    Removed(Result<(), Seq<char>>),
    Updated(Result<(), Seq<char>>),
}

pub struct ExchangeView {
    pub route: Route,
    pub token: Seq<char>,
    pub id_text: Seq<char>,
    pub file_name: Option<Seq<char>>,
    pub id: u128,
    pub destination: Seq<char>,
    pub stage: Stage,
}

pub open spec fn text_result<T>(r: Result<T, String>) -> Result<T, Seq<char>> {
    match r {
        Ok(v) => Ok(v),
        Err(e) => Err(e@),
    }
}

pub open spec fn text_result_view(r: Result<String, String>) -> Result<Seq<char>, Seq<char>> {
    match r {
        Ok(v) => Ok(v@),
        Err(e) => Err(e@),
    }
}

pub open spec fn bytes_result_view(r: Result<Vec<u8>, String>) -> Result<Seq<u8>, Seq<char>> {
    match r {
        Ok(v) => Ok(v@),
        Err(e) => Err(e@),
    }
}

impl View for Body {
    type V = BodyView;

    open spec fn view(&self) -> BodyView {
        match self {
            Body::Empty => BodyView::Empty,
            Body::Text(s) => BodyView::Text(s@),
            Body::Binary(b) => BodyView::Binary(b@),
        }
    }
}

impl View for Reply {
    type V = ReplyView;

    open spec fn view(&self) -> ReplyView {
        ReplyView {
            status: self.status,
            content_type: opt_text(self.content_type),
            disposition: opt_text(self.disposition),
            body: self.body@,
        }
    }
}

impl View for Action {
    type V = ActionView;

    open spec fn view(&self) -> ActionView {
        match self {
            Action::ReadEnv(k) => ActionView::ReadEnv(k@),
            Action::AcquireConnection => ActionView::AcquireConnection,
            Action::InsertUpload(e) => ActionView::InsertUpload(*e),
            Action::CheckExists(id) => ActionView::CheckExists(*id),
            Action::FetchUpload(id) => ActionView::FetchUpload(*id),
            Action::RenderUploadPage => ActionView::RenderUploadPage,
            Action::SaveFile(p) => ActionView::SaveFile(p@),
            Action::ReadFile(p) => ActionView::ReadFile(p@),
            Action::RemoveFile(p) => ActionView::RemoveFile(p@),
            Action::MarkGetted(id) => ActionView::MarkGetted(*id),
            Action::Respond(Ok(r)) => ActionView::Respond(Ok(r@)),
            Action::Respond(Err(e)) => ActionView::Respond(Err(e@)),
        }
    }
}

impl View for Event {
    type V = EventView;

    open spec fn view(&self) -> EventView {
        match self {
            Event::Env(r) => EventView::Env(text_result_view(*r)),
            Event::Connected(r) => EventView::Connected(text_result(*r)),
            Event::Inserted(r) => EventView::Inserted(text_result(*r)),
            Event::Exists(r) => EventView::Exists(text_result(*r)),
            Event::Row(r) => EventView::Row(text_result(*r)),
            Event::Rendered(r) => EventView::Rendered(text_result_view(*r)),
            Event::Saved(r) => EventView::Saved(text_result(*r)),
            Event::FileRead(r) => EventView::FileRead(bytes_result_view(*r)),
            Event::Removed(r) => EventView::Removed(text_result(*r)),
            Event::Updated(r) => EventView::Updated(text_result(*r)),
        }
    }
}

impl View for Exchange {
    type V = ExchangeView;

    open spec fn view(&self) -> ExchangeView {
        ExchangeView {
            route: self.route,
            token: self.token@,
            id_text: self.id_text@,
            file_name: opt_text(self.file_name),
            id: self.id,
            destination: self.destination@,
            stage: self.stage,
        }
    }
}

// ---------------------------------------------------------------------------
// The transition rules
// ---------------------------------------------------------------------------

/// The directory where received files are kept.
pub open spec fn files_dir() -> Seq<char> {
    "apps/files"@
}

/// A request of `route` that has not started yet.
pub open spec fn fresh(route: Route, token: Seq<char>, id_text: Seq<char>, file_name: Option<Seq<char>>) -> ExchangeView {
    ExchangeView {
        route,
        token,
        id_text,
        file_name,
        id: 0,
        destination: Seq::empty(),
        stage: Stage::Connecting,
    }
}

/// Each stage is entered only by the routes that go through it.
pub open spec fn stage_fits_route(stage: Stage, route: Route) -> bool {
    match stage {
        Stage::ReadingToken => route == Route::GenerateUpload || route == Route::GiveUpload,
        Stage::Connecting => true,
        Stage::Inserting => route == Route::GenerateUpload,
        Stage::CheckingExists => route != Route::GenerateUpload,
        Stage::FetchingRow => route != Route::GenerateUpload,
        Stage::Rendering => route == Route::Upload,
        Stage::SavingFile => route == Route::GetUpload,
        Stage::ReadingUpload => route == Route::GetUpload,
        Stage::RemovingUpload => route == Route::GetUpload,
        Stage::MarkingGetted => route == Route::GetUpload,
        Stage::ReadingStored => route == Route::GiveUpload,
        Stage::Finished => true,
    }
}

/// Whether `event` is the kind of result that `stage` waits for.
pub open spec fn answers(stage: Stage, event: EventView) -> bool {
    match event {
        EventView::Env(_) => stage == Stage::ReadingToken,
        EventView::Connected(_) => stage == Stage::Connecting,
        EventView::Inserted(_) => stage == Stage::Inserting,
        EventView::Exists(_) => stage == Stage::CheckingExists,
        EventView::Row(_) => stage == Stage::FetchingRow,
        EventView::Rendered(_) => stage == Stage::Rendering,
        EventView::Saved(_) => stage == Stage::SavingFile,
        EventView::FileRead(_) => stage == Stage::ReadingUpload || stage == Stage::ReadingStored,
        EventView::Removed(_) => stage == Stage::RemovingUpload,
        EventView::Updated(_) => stage == Stage::MarkingGetted,
    }
}

pub open spec fn go(ex: ExchangeView, stage: Stage, action: ActionView) -> (ExchangeView, ActionView) {
    (ExchangeView { stage, ..ex }, action)
}

pub open spec fn fail(ex: ExchangeView, e: ApiErrorView) -> (ExchangeView, ActionView) {
    go(ex, Stage::Finished, ActionView::Respond(Err(e)))
}

pub open spec fn succeed(ex: ExchangeView, r: ReplyView) -> (ExchangeView, ActionView) {
    go(ex, Stage::Finished, ActionView::Respond(Ok(r)))
}

pub open spec fn text_reply(content_type: Seq<char>, text: Seq<char>) -> ReplyView {
    ReplyView { status: OK, content_type: Some(content_type), disposition: None, body: BodyView::Text(text) }
}

pub open spec fn database_error(e: Seq<char>) -> ApiErrorView {
    logged_error(INTERNAL_SERVER_ERROR, "A diesel error has occurred: "@ + e)
}

pub open spec fn io_error(e: Seq<char>) -> ApiErrorView {
    logged_error(INTERNAL_SERVER_ERROR, "A std io error has occurred: "@ + e)
}

/// The `Content-Disposition` of a downloaded file named after its slot.
pub open spec fn attachment_header(name: Seq<char>) -> Seq<char> {
    "attachment; filename=\""@ + name + "\""@
}

/// Reads the slot id the client gave; a bad id is the client's error.
pub open spec fn after_id(ex: ExchangeView) -> (ExchangeView, ActionView) {
    match uuid_parse_str(ex.id_text) {
        Err(e) => fail(ex, logged_error(BAD_REQUEST, "Error with the given uuid: "@ + e)),
        Ok(id) => (ExchangeView { id, stage: Stage::Connecting, ..ex }, ActionView::AcquireConnection),
    }
}

/// The first state and action of a request `ex` that has not started: the
/// operator's routes read the configured token, the visitor's routes read
/// the slot id.
pub open spec fn start(ex: ExchangeView) -> (ExchangeView, ActionView) {
    if ex.route == Route::GenerateUpload || ex.route == Route::GiveUpload {
        go(ex, Stage::ReadingToken, ActionView::ReadEnv("TOKEN"@))
    } else {
        after_id(ex)
    }
}

/// Compares the client's token with the configured `TOKEN`.
pub open spec fn after_token(ex: ExchangeView, r: Result<Seq<char>, Seq<char>>) -> (ExchangeView, ActionView) {
    match r {
        Err(e) => fail(ex, logged_error(INTERNAL_SERVER_ERROR, "A var error has occurred: "@ + e)),
        Ok(expected) => if ex.token != expected {
            fail(ex, empty_error(UNAUTHORIZED))
        } else if ex.route == Route::GenerateUpload {
            go(ex, Stage::Connecting, ActionView::AcquireConnection)
        } else {
            after_id(ex)
        },
    }
}

pub open spec fn after_connection(ex: ExchangeView, r: Result<(), Seq<char>>, now: i64) -> (ExchangeView, ActionView) {
    match r {
        Err(e) => fail(
            ex,
            logged_error(INTERNAL_SERVER_ERROR, "Failed to retrieve a database connection from the pool: "@ + e),
        ),
        Ok(_) => if ex.route == Route::GenerateUpload {
            go(ex, Stage::Inserting, ActionView::InsertUpload(expiration_after(now) as i64))
        } else {
            go(ex, Stage::CheckingExists, ActionView::CheckExists(ex.id))
        },
    }
}

pub open spec fn after_insert(ex: ExchangeView, r: Result<u128, Seq<char>>) -> (ExchangeView, ActionView) {
    match r {
        Err(e) => fail(ex, database_error(e)),
        Ok(id) => succeed(ex, text_reply("text/plain"@, id_text(id))),
    }
}

pub open spec fn after_exists(ex: ExchangeView, r: Result<bool, Seq<char>>) -> (ExchangeView, ActionView) {
    match r {
        Err(e) => fail(ex, database_error(e)),
        Ok(found) => if !found {
            fail(ex, empty_error(NOT_FOUND))
        } else {
            go(ex, Stage::FetchingRow, ActionView::FetchUpload(ex.id))
        },
    }
}

pub open spec fn after_row(ex: ExchangeView, r: Result<(i64, bool), Seq<char>>, now: i64) -> (ExchangeView, ActionView) {
    match r {
        Err(e) => fail(ex, database_error(e)),
        Ok((expiration, getted)) => if ex.route == Route::GiveUpload {
            if is_expired(expiration, now) {
                fail(ex, empty_error(NOT_FOUND))
            } else if !getted {
                succeed(ex, ReplyView { status: ACCEPTED, content_type: None, disposition: None, body: BodyView::Empty })
            } else {
                go(ex, Stage::ReadingStored, ActionView::ReadFile(stored_file(ex.id)))
            }
        } else if !accepts_file(expiration, getted, now) {
            fail(ex, empty_error(NOT_FOUND))
        } else if ex.route == Route::Upload {
            go(ex, Stage::Rendering, ActionView::RenderUploadPage)
        } else {
            let destination = upload_destination(ex.file_name, ex.id);
            (ExchangeView { destination, stage: Stage::SavingFile, ..ex }, ActionView::SaveFile(destination))
        },
    }
}

pub open spec fn after_render(ex: ExchangeView, r: Result<Seq<char>, Seq<char>>) -> (ExchangeView, ActionView) {
    match r {
        Err(e) => fail(ex, logged_error(INTERNAL_SERVER_ERROR, "Error while parsing template: "@ + e)),
        Ok(page) => succeed(ex, text_reply("text/html"@, page)),
    }
}

pub open spec fn after_save(ex: ExchangeView, r: Result<(), Seq<char>>) -> (ExchangeView, ActionView) {
    match r {
        Err(e) => fail(ex, io_error(e)),
        Ok(_) => go(ex, Stage::ReadingUpload, ActionView::ReadFile(ex.destination)),
    }
}

/// A received file is kept only if it is recognised as an archive; a file
/// of unknown type is deleted, one of another known type is left in place.
pub open spec fn after_upload_read(ex: ExchangeView, r: Result<Seq<u8>, Seq<char>>) -> (ExchangeView, ActionView) {
    match r {
        Err(e) => fail(ex, io_error(e)),
        Ok(bytes) => match inferred_type(bytes) {
            None => go(ex, Stage::RemovingUpload, ActionView::RemoveFile(ex.destination)),
            Some((is_archive, _)) => if is_archive {
                go(ex, Stage::MarkingGetted, ActionView::MarkGetted(ex.id))
            } else {
                fail(ex, empty_error(UNSUPPORTED_MEDIA_TYPE))
            },
        },
    }
}

pub open spec fn after_remove(ex: ExchangeView, r: Result<(), Seq<char>>) -> (ExchangeView, ActionView) {
    match r {
        Err(e) => fail(ex, io_error(e)),
        Ok(_) => fail(ex, empty_error(UNSUPPORTED_MEDIA_TYPE)),
    }
}

pub open spec fn after_mark(ex: ExchangeView, r: Result<(), Seq<char>>) -> (ExchangeView, ActionView) {
    match r {
        Err(e) => fail(ex, database_error(e)),
        Ok(_) => succeed(ex, text_reply("text/plain"@, "Done"@)),
    }
}

/// A stored file is sent as an attachment named after its slot, with the
/// MIME type recognised from its contents.
pub open spec fn after_stored_read(ex: ExchangeView, r: Result<Seq<u8>, Seq<char>>) -> (ExchangeView, ActionView) {
    match r {
        Err(e) => fail(ex, io_error(e)),
        Ok(bytes) => match inferred_type(bytes) {
            None => fail(ex, empty_error(UNSUPPORTED_MEDIA_TYPE)),
            Some((_, mime)) => succeed(
                ex,
                ReplyView {
                    status: OK,
                    content_type: Some(mime),
                    disposition: Some(attachment_header(id_text(ex.id))),
                    body: BodyView::Binary(bytes),
                },
            ),
        },
    }
}

/// The next state and action of a request in `ex` once `event` arrives, when
/// the clock reads `now`.
pub open spec fn next(ex: ExchangeView, event: EventView, now: i64) -> (ExchangeView, ActionView) {
    match event {
        EventView::Env(r) => after_token(ex, r),
        EventView::Connected(r) => after_connection(ex, r, now),
        EventView::Inserted(r) => after_insert(ex, r),
        EventView::Exists(r) => after_exists(ex, r),
        EventView::Row(r) => after_row(ex, r, now),
        EventView::Rendered(r) => after_render(ex, r),
        EventView::Saved(r) => after_save(ex, r),
        EventView::FileRead(r) => if ex.stage == Stage::ReadingUpload {
            after_upload_read(ex, r)
        } else {
            after_stored_read(ex, r)
        },
        EventView::Removed(r) => after_remove(ex, r),
        EventView::Updated(r) => after_mark(ex, r),
    }
}

/// Whether the step taken on `event` reads the clock.
pub open spec fn reads_clock(ex: ExchangeView, event: EventView) -> bool {
    ||| (event is Connected && ex.route == Route::GenerateUpload)
    ||| event is Row
}

// ---------------------------------------------------------------------------
// The executable steps
// ---------------------------------------------------------------------------

impl Exchange {
    pub(crate) fn fresh(route: Route, token: String, id_text: String, file_name: Option<String>) -> (res: Exchange)
        ensures
            res@ == fresh(route, token@, id_text@, opt_text(file_name)),
    {
        Exchange { route, token, id_text, file_name, id: 0, destination: String::new(), stage: Stage::Connecting }
    }

    /// Whether `event` may be handed to `step`: the exchange is in a stage
    /// of its route and the event is the result that stage waits for.
    pub fn accepts(&self, event: &Event) -> (res: bool)
        ensures
            res == (stage_fits_route(self.stage, self.route) && answers(self.stage, event@)),
    {
        let fits = match self.stage {
            Stage::ReadingToken => self.route == Route::GenerateUpload || self.route == Route::GiveUpload,
            Stage::Connecting => true,
            Stage::Inserting => self.route == Route::GenerateUpload,
            Stage::CheckingExists => self.route != Route::GenerateUpload,
            Stage::FetchingRow => self.route != Route::GenerateUpload,
            Stage::Rendering => self.route == Route::Upload,
            Stage::SavingFile => self.route == Route::GetUpload,
            Stage::ReadingUpload => self.route == Route::GetUpload,
            Stage::RemovingUpload => self.route == Route::GetUpload,
            Stage::MarkingGetted => self.route == Route::GetUpload,
            Stage::ReadingStored => self.route == Route::GiveUpload,
            Stage::Finished => true,
        };
        let answered = match event {
            Event::Env(_) => self.stage == Stage::ReadingToken,
            Event::Connected(_) => self.stage == Stage::Connecting,
            Event::Inserted(_) => self.stage == Stage::Inserting,
            Event::Exists(_) => self.stage == Stage::CheckingExists,
            Event::Row(_) => self.stage == Stage::FetchingRow,
            Event::Rendered(_) => self.stage == Stage::Rendering,
            Event::Saved(_) => self.stage == Stage::SavingFile,
            Event::FileRead(_) => self.stage == Stage::ReadingUpload || self.stage == Stage::ReadingStored,
            Event::Removed(_) => self.stage == Stage::RemovingUpload,
            Event::Updated(_) => self.stage == Stage::MarkingGetted,
        };
        fits && answered
    }

    /// Whether the request has been answered.
    pub fn is_finished(&self) -> (res: bool)
        ensures
            res == (self.stage == Stage::Finished),
    {
        self.stage == Stage::Finished
    }

    /// Takes the next step on `event`. `now` is the current Unix time in
    /// seconds, read by the caller when `needs_clock` says the step uses it
    /// (any value in range will do otherwise).
    pub fn step_at(self, event: Event, now: i64) -> (res: (Exchange, Action))
        requires
            stage_fits_route(self.stage, self.route),
            answers(self.stage, event@),
            EARLIEST_TIMESTAMP <= now <= LATEST_TIMESTAMP,
        ensures
            (res.0@, res.1@) == next(self@, event@, now),
            stage_fits_route(res.0.stage, res.0.route),
            // A received file is stored, and a stored file is later read, at
            // the same place: the files directory, under the slot id.
            self.stage == Stage::FetchingRow ==> (res.1@ matches ActionView::SaveFile(p) ==> (
                is_plain_file_name(self@.file_name) ==> p == files_dir() + seq!['/'] + id_text(self.id))),
            self.stage == Stage::FetchingRow ==> (res.1@ matches ActionView::ReadFile(p)
                ==> p == files_dir() + seq!['/'] + id_text(self.id)),
            // A download that passes the token check reads back the id text
            // handed out for a slot as that slot's id.
            self.route == Route::GiveUpload && event@ == EventView::Env(Ok(self@.token)) ==> forall|v: u128|
                self.id_text@ == #[trigger] id_text(v) ==> res.0.stage == Stage::Connecting && res.0.id == v,
    {
        match event {
            Event::Env(r) => self.on_token(r),
            Event::Connected(r) => self.on_connection(r, now),
            Event::Inserted(r) => self.on_insert(r),
            Event::Exists(r) => self.on_exists(r),
            Event::Row(r) => self.on_row(r, now),
            Event::Rendered(r) => self.on_render(r),
            Event::Saved(r) => self.on_save(r),
            Event::FileRead(r) => if self.stage == Stage::ReadingUpload {
                self.on_upload_read(r)
            } else {
                self.on_stored_read(r)
            },
            Event::Removed(r) => self.on_remove(r),
            Event::Updated(r) => self.on_mark(r),
        }
    }

    /// Whether the step on `event` consults the current time; only then does
    /// the `now` handed to `step_at` matter.
    pub fn needs_clock(&self, event: &Event) -> (res: bool)
        ensures
            res == reads_clock(self@, event@),
    {
        match event {
            Event::Connected(_) => self.route == Route::GenerateUpload,
            Event::Row(_) => true,
            _ => false,
        }
    }

    fn go_to(self, stage: Stage, action: Action) -> (res: (Exchange, Action))
        ensures
            (res.0@, res.1@) == go(self@, stage, action@),
            res.0.route == self.route,
            res.0.stage == stage,
    {
        (Exchange { stage, ..self }, action)
    }

    fn fail_with(self, e: ApiError) -> (res: (Exchange, Action))
        ensures
            (res.0@, res.1@) == fail(self@, e@),
            res.0.route == self.route,
            res.0.stage == Stage::Finished,
    {
        self.go_to(Stage::Finished, Action::Respond(Err(e)))
    }

    fn succeed_with(self, r: Reply) -> (res: (Exchange, Action))
        ensures
            (res.0@, res.1@) == succeed(self@, r@),
            res.0.route == self.route,
            res.0.stage == Stage::Finished,
    {
        self.go_to(Stage::Finished, Action::Respond(Ok(r)))
    }

    fn text_reply_of(content_type: &str, text: String) -> (res: Reply)
        ensures
            res@ == text_reply(content_type@, text@),
    {
        Reply { status: OK, content_type: Some(content_type.to_owned()), disposition: None, body: Body::Text(text) }
    }

    pub(crate) fn on_id(self) -> (res: (Exchange, Action))
        ensures
            (res.0@, res.1@) == after_id(self@),
            res.0.route == self.route,
            res.0.stage == Stage::Finished || res.0.stage == Stage::Connecting,
            forall|v: u128| self.id_text@ == #[trigger] id_text(v) ==> res.0.stage == Stage::Connecting && res.0.id == v,
    {
        match parse_id(self.id_text.as_str()) {
            Err(e) => {
                let err = ApiError::from_uuid(e.as_str());
                self.fail_with(err)
            },
            Ok(id) => (Exchange { id, stage: Stage::Connecting, ..self }, Action::AcquireConnection),
        }
    }

    fn on_token(self, r: Result<String, String>) -> (res: (Exchange, Action))
        requires
            self.route == Route::GenerateUpload || self.route == Route::GiveUpload,
        ensures
            (res.0@, res.1@) == after_token(self@, text_result_view(r)),
            stage_fits_route(res.0.stage, res.0.route),
            self.route == Route::GiveUpload && text_result_view(r) == Ok::<Seq<char>, Seq<char>>(self@.token) ==> forall|v: u128|
                self.id_text@ == #[trigger] id_text(v) ==> res.0.stage == Stage::Connecting && res.0.id == v,
    {
        match parse_key(r) {
            Err(e) => self.fail_with(e),
            Ok(expected) => if !(self.token == expected) {
                self.fail_with(ApiError::new_empty(UNAUTHORIZED))
            } else if self.route == Route::GenerateUpload {
                self.go_to(Stage::Connecting, Action::AcquireConnection)
            } else {
                self.on_id()
            },
        }
    }

    fn on_connection(self, r: Result<(), String>, now: i64) -> (res: (Exchange, Action))
        requires
            EARLIEST_TIMESTAMP <= now <= LATEST_TIMESTAMP,
            self.stage == Stage::Connecting,
        ensures
            (res.0@, res.1@) == after_connection(self@, text_result(r), now),
            stage_fits_route(res.0.stage, res.0.route),
    {
        match r {
            Err(e) => self.fail_with(ApiError::from_pool(e.as_str())),
            Ok(_) => if self.route == Route::GenerateUpload {
                let expiration = expiration_for(now);
                self.go_to(Stage::Inserting, Action::InsertUpload(expiration))
            } else {
                let id = self.id;
                self.go_to(Stage::CheckingExists, Action::CheckExists(id))
            },
        }
    }

    fn on_insert(self, r: Result<u128, String>) -> (res: (Exchange, Action))
        ensures
            (res.0@, res.1@) == after_insert(self@, text_result(r)),
            res.0.stage == Stage::Finished,
    {
        match r {
            Err(e) => self.fail_with(ApiError::from_diesel(e.as_str())),
            Ok(id) => {
                let text = format_id(id);
                self.succeed_with(Self::text_reply_of("text/plain", text))
            },
        }
    }

    fn on_exists(self, r: Result<bool, String>) -> (res: (Exchange, Action))
        requires
            self.route != Route::GenerateUpload,
        ensures
            (res.0@, res.1@) == after_exists(self@, text_result(r)),
            stage_fits_route(res.0.stage, res.0.route),
    {
        match r {
            Err(e) => self.fail_with(ApiError::from_diesel(e.as_str())),
            Ok(found) => if !found {
                self.fail_with(ApiError::new_empty(NOT_FOUND))
            } else {
                let id = self.id;
                self.go_to(Stage::FetchingRow, Action::FetchUpload(id))
            },
        }
    }

    fn on_row(self, r: Result<(i64, bool), String>, now: i64) -> (res: (Exchange, Action))
        requires
            self.route != Route::GenerateUpload,
        ensures
            (res.0@, res.1@) == after_row(self@, text_result(r), now),
            stage_fits_route(res.0.stage, res.0.route),
            res.1@ matches ActionView::SaveFile(p) ==> (is_plain_file_name(self@.file_name)
                ==> p == files_dir() + seq!['/'] + id_text(self.id)),
            res.1@ matches ActionView::ReadFile(p) ==> p == files_dir() + seq!['/'] + id_text(self.id),
    {
        match r {
            Err(e) => self.fail_with(ApiError::from_diesel(e.as_str())),
            Ok((expiration, getted)) => {
                let row = Uploads { uuid: self.id, expiration, getted };
                if self.route == Route::GiveUpload {
                    if row.expired_at(now) {
                        self.fail_with(ApiError::new_empty(NOT_FOUND))
                    } else if !getted {
                        let reply = Reply { status: ACCEPTED, content_type: None, disposition: None, body: Body::Empty };
                        self.succeed_with(reply)
                    } else {
                        let path = stored_file_path(self.id);
                        self.go_to(Stage::ReadingStored, Action::ReadFile(path))
                    }
                } else if !row.accepts_file_at(now) {
                    self.fail_with(ApiError::new_empty(NOT_FOUND))
                } else if self.route == Route::Upload {
                    self.go_to(Stage::Rendering, Action::RenderUploadPage)
                } else {
                    let destination = upload_destination_path(&self.file_name, self.id);
                    let target = destination.clone();
                    (Exchange { destination, stage: Stage::SavingFile, ..self }, Action::SaveFile(target))
                }
            },
        }
    }

    fn on_render(self, r: Result<String, String>) -> (res: (Exchange, Action))
        ensures
            (res.0@, res.1@) == after_render(self@, text_result_view(r)),
            res.0.stage == Stage::Finished,
    {
        match r {
            Err(e) => self.fail_with(ApiError::from_template(e.as_str())),
            Ok(page) => self.succeed_with(Self::text_reply_of("text/html", page)),
        }
    }

    fn on_save(self, r: Result<(), String>) -> (res: (Exchange, Action))
        requires
            self.route == Route::GetUpload,
        ensures
            (res.0@, res.1@) == after_save(self@, text_result(r)),
            stage_fits_route(res.0.stage, res.0.route),
    {
        match r {
            Err(e) => self.fail_with(ApiError::from_io(e.as_str())),
            Ok(_) => {
                let path = self.destination.clone();
                self.go_to(Stage::ReadingUpload, Action::ReadFile(path))
            },
        }
    }

    fn on_upload_read(self, r: Result<Vec<u8>, String>) -> (res: (Exchange, Action))
        requires
            self.route == Route::GetUpload,
        ensures
            (res.0@, res.1@) == after_upload_read(self@, bytes_result_view(r)),
            stage_fits_route(res.0.stage, res.0.route),
    {
        match r {
            Err(e) => self.fail_with(ApiError::from_io(e.as_str())),
            Ok(bytes) => {
                let detected = infer_file_type(bytes.as_slice());
                match verify_file(&detected) {
                    FileVerdict::Unknown => {
                        let path = self.destination.clone();
                        self.go_to(Stage::RemovingUpload, Action::RemoveFile(path))
                    },
                    FileVerdict::Archive => {
                        let id = self.id;
                        self.go_to(Stage::MarkingGetted, Action::MarkGetted(id))
                    },
                    FileVerdict::NotArchive => self.fail_with(ApiError::new_empty(UNSUPPORTED_MEDIA_TYPE)),
                }
            },
        }
    }

    fn on_remove(self, r: Result<(), String>) -> (res: (Exchange, Action))
        ensures
            (res.0@, res.1@) == after_remove(self@, text_result(r)),
            res.0.stage == Stage::Finished,
    {
        match r {
            Err(e) => self.fail_with(ApiError::from_io(e.as_str())),
            Ok(_) => self.fail_with(ApiError::new_empty(UNSUPPORTED_MEDIA_TYPE)),
        }
    }

    fn on_mark(self, r: Result<(), String>) -> (res: (Exchange, Action))
        ensures
            (res.0@, res.1@) == after_mark(self@, text_result(r)),
            res.0.stage == Stage::Finished,
    {
        match r {
            Err(e) => self.fail_with(ApiError::from_diesel(e.as_str())),
            Ok(_) => self.succeed_with(Self::text_reply_of("text/plain", "Done".to_owned())),
        }
    }

    fn on_stored_read(self, r: Result<Vec<u8>, String>) -> (res: (Exchange, Action))
        ensures
            (res.0@, res.1@) == after_stored_read(self@, bytes_result_view(r)),
            res.0.stage == Stage::Finished,
    {
        match r {
            Err(e) => self.fail_with(ApiError::from_io(e.as_str())),
            Ok(bytes) => match infer_file_type(bytes.as_slice()) {
                None => self.fail_with(ApiError::new_empty(UNSUPPORTED_MEDIA_TYPE)),
                Some(t) => {
                    let name = format_id(self.id);
                    let mut disposition = "attachment; filename=\"".to_owned();
                    disposition.append(name.as_str());
                    disposition.append("\"");
                    let reply = Reply {
                        status: OK,
                        content_type: Some(t.mime_type),
                        disposition: Some(disposition),
                        body: Body::Binary(bytes),
                    };
                    self.succeed_with(reply)
                },
            },
        }
    }
}

} // verus!
