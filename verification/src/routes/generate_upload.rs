use vstd::prelude::*;
use crate::routes::{fresh, stage_fits_route, start, Action, Exchange, Route, Stage};

verus! {

/// The query of a request for a new upload slot.
pub struct Info {
    pub token: String,
}

/// Starts answering a request for a new upload slot: the client's token is
/// first checked against the `TOKEN` variable.
pub fn generate_upload(info: &Info) -> (res: (Exchange, Action))
    ensures
        (res.0@, res.1@) == start(fresh(Route::GenerateUpload, info.token@, Seq::empty(), None)),
        stage_fits_route(res.0.stage, res.0.route),
{
    let ex = Exchange::fresh(Route::GenerateUpload, info.token.clone(), String::new(), None);
    (Exchange { stage: Stage::ReadingToken, ..ex }, Action::ReadEnv("TOKEN".to_owned()))
}

} // verus!
