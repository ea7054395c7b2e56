use vstd::prelude::*;
use crate::api_error::{empty_error, ApiErrorView, ACCEPTED, NOT_FOUND, OK, UNAUTHORIZED, UNSUPPORTED_MEDIA_TYPE};
use crate::clock::{EARLIEST_TIMESTAMP, LATEST_TIMESTAMP};
use crate::database::models::uploads::expiration_after;
use crate::file_type::inferred_type;
use crate::ids::{id_text, uuid_parse_str};
use crate::routes::get_upload::upload_destination;
use crate::routes::give_upload::stored_file;
use crate::routes::{
    attachment_header, fresh, next, start, text_reply, ActionView, BodyView, EventView, ExchangeView, ReplyView,
    Route,
};

verus! {

/// What the service keeps between requests: the `uploads` table (slot id to
/// expiration and `getted` flag) and the files on disk (path to contents).
pub struct Store {
    pub slots: Map<u128, (i64, bool)>,
    pub files: Map<Seq<char>, Seq<u8>>,
}

/// What the world supplies while one request is served: the configured
/// token, the time, the id the database gives a new row, the rendered upload
/// page, the contents of the received file, and the text of the error a
/// missing file gives.
pub struct Surroundings {
    pub token: Seq<char>,
    pub now: i64,
    pub new_id: u128,
    pub page: Seq<char>,
    pub upload: Seq<u8>,
    pub missing_file: Seq<char>,
}

/// The outcome of doing `action` against `store` when the database and the
/// disk work: the new store and the event that reports the result.
pub open spec fn perform(store: Store, env: Surroundings, action: ActionView) -> (Store, EventView) {
    match action {
        ActionView::ReadEnv(_) => (store, EventView::Env(Ok(env.token))),
        ActionView::AcquireConnection => (store, EventView::Connected(Ok(()))),
        ActionView::InsertUpload(expiration) => (
            Store { slots: store.slots.insert(env.new_id, (expiration, false)), ..store },
            EventView::Inserted(Ok(env.new_id)),
        ),
        ActionView::CheckExists(id) => (store, EventView::Exists(Ok(store.slots.contains_key(id)))),
        ActionView::FetchUpload(id) => (store, EventView::Row(Ok(store.slots[id]))),
        ActionView::RenderUploadPage => (store, EventView::Rendered(Ok(env.page))),
        ActionView::SaveFile(path) => (
            Store { files: store.files.insert(path, env.upload), ..store },
            EventView::Saved(Ok(())),
        ),
        ActionView::ReadFile(path) => if store.files.contains_key(path) {
            (store, EventView::FileRead(Ok(store.files[path])))
        } else {
            (store, EventView::FileRead(Err(env.missing_file)))
        },
        ActionView::RemoveFile(path) => if store.files.contains_key(path) {
            (Store { files: store.files.remove(path), ..store }, EventView::Removed(Ok(())))
        } else {
            (store, EventView::Removed(Err(env.missing_file)))
        },
        ActionView::MarkGetted(id) => if store.slots.contains_key(id) {
            (Store { slots: store.slots.insert(id, (store.slots[id].0, true)), ..store }, EventView::Updated(Ok(())))
        } else {
            (store, EventView::Updated(Ok(())))
        },
        ActionView::Respond(_) => (store, EventView::Connected(Ok(()))),
    }
}

/// Runs a request from state `ex` and pending `action` for at most `fuel`
/// pieces of outside work: the final store and the answer, if one was given.
pub open spec fn serve(store: Store, env: Surroundings, ex: ExchangeView, action: ActionView, fuel: nat) -> (
    Store,
    Option<Result<ReplyView, ApiErrorView>>,
)
    decreases fuel,
{
    match action {
        ActionView::Respond(answer) => (store, Some(answer)),
        _ => if fuel == 0 {
            (store, None)
        } else {
            let done = perform(store, env, action);
            let step = next(ex, done.1, env.now);
            serve(done.0, env, step.0, step.1, (fuel - 1) as nat)
        },
    }
}

/// Serves the request `ex` from its start; no request needs more than seven
/// pieces of outside work.
pub open spec fn request(store: Store, env: Surroundings, ex: ExchangeView) -> (
    Store,
    Option<Result<ReplyView, ApiErrorView>>,
) {
    serve(store, env, start(ex).0, start(ex).1, 8)
}

/// A request answered with the reply `r`.
pub open spec fn replied(r: ReplyView) -> Option<Result<ReplyView, ApiErrorView>> {
    Some(Ok(r))
}

/// A request answered with the error `e`.
pub open spec fn refused(e: ApiErrorView) -> Option<Result<ReplyView, ApiErrorView>> {
    Some(Err(e))
}

/// The state of a slot that takes a file at `now`.
pub open spec fn slot_open(store: Store, id: u128, now: i64) -> bool {
    store.slots.contains_key(id) && !store.slots[id].1 && now <= store.slots[id].0
}

/// Generating a slot with the right token inserts an unfilled row that
/// expires ten minutes later and answers the new slot's id as text; the files
/// are untouched.
pub proof fn lemma_generate_creates_a_slot(store: Store, env: Surroundings)
    requires
        EARLIEST_TIMESTAMP <= env.now <= LATEST_TIMESTAMP,
    ensures
        request(store, env, fresh(Route::GenerateUpload, env.token, Seq::empty(), None)) == (
            Store {
                slots: store.slots.insert(env.new_id, (expiration_after(env.now) as i64, false)),
                files: store.files,
            },
            replied(text_reply("text/plain"@, id_text(env.new_id))),
        ),
{
    reveal_with_fuel(serve, 5);
}

/// A request for a new slot, or for a slot's file, with a wrong token is
/// refused with 401 and changes nothing.
pub proof fn lemma_wrong_token_changes_nothing(store: Store, env: Surroundings, ex: ExchangeView)
    requires
        ex.route == Route::GenerateUpload || ex.route == Route::GiveUpload,
        ex.token != env.token,
    ensures
        request(store, env, ex) == (store, refused(empty_error(UNAUTHORIZED))),
{
    reveal_with_fuel(serve, 3);
}

/// A visitor's archive sent to an open slot is stored under the slot's
/// destination, marks the slot filled (keeping its expiration), and is
/// answered "Done".
pub proof fn lemma_archive_fills_its_slot(
    store: Store,
    env: Surroundings,
    text: Seq<char>,
    file_name: Option<Seq<char>>,
    id: u128,
)
    requires
        EARLIEST_TIMESTAMP <= env.now <= LATEST_TIMESTAMP,
        uuid_parse_str(text) == Ok::<u128, Seq<char>>(id),
        slot_open(store, id, env.now),
        inferred_type(env.upload) matches Some((true, _)),
    ensures
        request(store, env, fresh(Route::GetUpload, Seq::empty(), text, file_name)) == (
            Store {
                slots: store.slots.insert(id, (store.slots[id].0, true)),
                files: store.files.insert(upload_destination(file_name, id), env.upload),
            },
            replied(text_reply("text/plain"@, "Done"@)),
        ),
{
    reveal_with_fuel(serve, 9);
    let dest = upload_destination(file_name, id);
    assert(store.files.insert(dest, env.upload).contains_key(dest));
}

/// A filled slot takes nothing more: its upload page and any further upload
/// are answered 404, whatever the time, and nothing changes.
pub proof fn lemma_filled_slot_refuses_visitors(
    store: Store,
    env: Surroundings,
    route: Route,
    text: Seq<char>,
    file_name: Option<Seq<char>>,
    id: u128,
)
    requires
        EARLIEST_TIMESTAMP <= env.now <= LATEST_TIMESTAMP,
        route == Route::Upload || route == Route::GetUpload,
        uuid_parse_str(text) == Ok::<u128, Seq<char>>(id),
        store.slots.contains_key(id),
        store.slots[id].1,
    ensures
        request(store, env, fresh(route, Seq::empty(), text, file_name)) == (store, refused(empty_error(NOT_FOUND))),
{
    reveal_with_fuel(serve, 5);
}

/// One archive per slot: once an archive has filled a slot, every later
/// page view or upload for that slot is answered 404 and changes nothing.
pub proof fn lemma_one_archive_per_slot(
    store: Store,
    env: Surroundings,
    text: Seq<char>,
    file_name: Option<Seq<char>>,
    id: u128,
    later: Surroundings,
    route: Route,
    later_text: Seq<char>,
    later_file_name: Option<Seq<char>>,
)
    requires
        EARLIEST_TIMESTAMP <= env.now <= LATEST_TIMESTAMP,
        EARLIEST_TIMESTAMP <= later.now <= LATEST_TIMESTAMP,
        uuid_parse_str(text) == Ok::<u128, Seq<char>>(id),
        slot_open(store, id, env.now),
        inferred_type(env.upload) matches Some((true, _)),
        route == Route::Upload || route == Route::GetUpload,
        uuid_parse_str(later_text) == Ok::<u128, Seq<char>>(id),
    ensures
        ({
            let first = request(store, env, fresh(Route::GetUpload, Seq::empty(), text, file_name));
            request(first.0, later, fresh(route, Seq::empty(), later_text, later_file_name))
                == (first.0, refused(empty_error(NOT_FOUND)))
        }),
{
    lemma_archive_fills_its_slot(store, env, text, file_name, id);
    let first = request(store, env, fresh(Route::GetUpload, Seq::empty(), text, file_name));
    assert(first.0.slots.contains_key(id) && first.0.slots[id].1);
    lemma_filled_slot_refuses_visitors(first.0, later, route, later_text, later_file_name, id);
}

/// The operator asking for a slot that is open but not filled yet is told
/// 202 (pending), and nothing changes.
pub proof fn lemma_pending_slot_is_accepted(store: Store, env: Surroundings, text: Seq<char>, id: u128)
    requires
        EARLIEST_TIMESTAMP <= env.now <= LATEST_TIMESTAMP,
        uuid_parse_str(text) == Ok::<u128, Seq<char>>(id),
        slot_open(store, id, env.now),
    ensures
        request(store, env, fresh(Route::GiveUpload, env.token, text, None)) == (
            store,
            replied(ReplyView { status: ACCEPTED, content_type: None, disposition: None, body: BodyView::Empty }),
        ),
{
    reveal_with_fuel(serve, 6);
}

/// What the visitor uploaded is what the operator downloads: after an
/// archive has filled a slot, the operator's request (before the slot
/// expires) returns exactly the uploaded bytes, as an attachment named after
/// the slot with the recognised MIME type, and changes nothing. This needs
/// the upload to be stored where downloads read, which holds for every
/// plain file name (see `upload_destination_path`).
pub proof fn lemma_download_returns_the_upload(
    store: Store,
    env: Surroundings,
    text: Seq<char>,
    file_name: Option<Seq<char>>,
    id: u128,
    later: Surroundings,
    later_text: Seq<char>,
)
    requires
        EARLIEST_TIMESTAMP <= env.now <= LATEST_TIMESTAMP,
        EARLIEST_TIMESTAMP <= later.now <= LATEST_TIMESTAMP,
        uuid_parse_str(text) == Ok::<u128, Seq<char>>(id),
        slot_open(store, id, env.now),
        inferred_type(env.upload) matches Some((true, _)),
        upload_destination(file_name, id) == stored_file(id),
        uuid_parse_str(later_text) == Ok::<u128, Seq<char>>(id),
        later.now <= store.slots[id].0,
    ensures
        ({
            let first = request(store, env, fresh(Route::GetUpload, Seq::empty(), text, file_name));
            request(first.0, later, fresh(Route::GiveUpload, later.token, later_text, None)) == (
                first.0,
                replied(ReplyView {
                    status: OK,
                    content_type: Some(inferred_type(env.upload).unwrap().1),
                    disposition: Some(attachment_header(id_text(id))),
                    body: BodyView::Binary(env.upload),
                }),
            )
        }),
{
    lemma_archive_fills_its_slot(store, env, text, file_name, id);
    let first = request(store, env, fresh(Route::GetUpload, Seq::empty(), text, file_name));
    assert(first.0.slots[id] == (store.slots[id].0, true));
    assert(first.0.files.contains_key(stored_file(id)));
    assert(first.0.files[stored_file(id)] == env.upload);
    reveal_with_fuel(serve, 7);
}

/// A file that is not an archive does not fill the slot, which stays open
/// for another try; it is answered 415. A file of unknown type is deleted
/// again, one of another known type stays on disk.
pub proof fn lemma_refused_upload_keeps_the_slot_open(
    store: Store,
    env: Surroundings,
    text: Seq<char>,
    file_name: Option<Seq<char>>,
    id: u128,
)
    requires
        EARLIEST_TIMESTAMP <= env.now <= LATEST_TIMESTAMP,
        uuid_parse_str(text) == Ok::<u128, Seq<char>>(id),
        slot_open(store, id, env.now),
        !(inferred_type(env.upload) matches Some((true, _))),
    ensures
        ({
            let dest = upload_destination(file_name, id);
            let saved = store.files.insert(dest, env.upload);
            request(store, env, fresh(Route::GetUpload, Seq::empty(), text, file_name)) == (
                Store {
                    slots: store.slots,
                    files: if inferred_type(env.upload) is None { saved.remove(dest) } else { saved },
                },
                refused(empty_error(UNSUPPORTED_MEDIA_TYPE)),
            )
        }),
{
    reveal_with_fuel(serve, 9);
    let dest = upload_destination(file_name, id);
    assert(store.files.insert(dest, env.upload).contains_key(dest));
}

/// A slot that does not exist, or has expired, is answered 404 on the page,
/// upload and (with the right token) download routes, and nothing changes.
pub proof fn lemma_missing_or_expired_slot_is_not_found(
    store: Store,
    env: Surroundings,
    route: Route,
    token: Seq<char>,
    text: Seq<char>,
    file_name: Option<Seq<char>>,
    id: u128,
)
    requires
        EARLIEST_TIMESTAMP <= env.now <= LATEST_TIMESTAMP,
        route == Route::Upload || route == Route::GetUpload || (route == Route::GiveUpload && token == env.token),
        uuid_parse_str(text) == Ok::<u128, Seq<char>>(id),
        !store.slots.contains_key(id) || env.now > store.slots[id].0,
    ensures
        request(store, env, fresh(route, token, text, file_name)) == (store, refused(empty_error(NOT_FOUND))),
{
    reveal_with_fuel(serve, 6);
}

/// Viewing the upload page and downloading never change the table or the
/// files, whatever the world answers.
pub proof fn lemma_readers_change_nothing(store: Store, env: Surroundings, route: Route, token: Seq<char>, text: Seq<char>)
    requires
        EARLIEST_TIMESTAMP <= env.now <= LATEST_TIMESTAMP,
        route == Route::Upload || route == Route::GiveUpload,
    ensures
        request(store, env, fresh(route, token, text, None)).0 == store,
{
    reveal_with_fuel(serve, 9);
}

} // verus!
