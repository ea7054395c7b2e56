use vstd::prelude::*;
use crate::ids::{format_id, id_text, lemma_id_text_is_plain_name};
use crate::paths::{join_path, path_join};
use crate::routes::{files_dir, fresh, stage_fits_route, start, Action, Exchange, Route, Stage};

verus! {

/// The query of a request for the file of a slot.
pub struct Info {
    pub token: String,
    pub uuid: String,
}

/// Where the file received for slot `id` is read from.
pub open spec fn stored_file(id: u128) -> Seq<char> {
    path_join(files_dir(), id_text(id))
}

/// The path of the file received for slot `id`.
pub fn stored_file_path(id: u128) -> (res: String)
    ensures
        res@ == stored_file(id),
        res@ == files_dir() + seq!['/'] + id_text(id),
{
    let name = format_id(id);
    proof {
        reveal_strlit("apps/files");
        lemma_id_text_is_plain_name(id);
    }
    join_path("apps/files", name.as_str())
}

/// Starts answering a request for the file of a slot: the client's token is
/// first checked against the `TOKEN` variable, then the slot id is read.
pub fn give_upload(info: &Info) -> (res: (Exchange, Action))
    ensures
        (res.0@, res.1@) == start(fresh(Route::GiveUpload, info.token@, info.uuid@, None)),
        stage_fits_route(res.0.stage, res.0.route),
{
    let ex = Exchange::fresh(Route::GiveUpload, info.token.clone(), info.uuid.clone(), None);
    (Exchange { stage: Stage::ReadingToken, ..ex }, Action::ReadEnv("TOKEN".to_owned()))
}

} // verus!
