use vstd::prelude::*;
use crate::ids::id_text;
use crate::routes::{start, fresh, stage_fits_route, Action, Exchange, Route, Stage};

verus! {

/// The query of a request for the upload page of a slot.
pub struct Info {
    pub uuid: String,
}

/// Starts answering a request for the upload page of a slot: the slot id is
/// read first.
pub fn upload(info: &Info) -> (res: (Exchange, Action))
    ensures
        (res.0@, res.1@) == start(fresh(Route::Upload, Seq::empty(), info.uuid@, None)),
        stage_fits_route(res.0.stage, res.0.route),
        // The id text handed out for a slot is read back as that slot's id.
        forall|v: u128| info.uuid@ == #[trigger] id_text(v) ==> res.0.stage == Stage::Connecting && res.0.id == v,
{
    let ex = Exchange::fresh(Route::Upload, String::new(), info.uuid.clone(), None);
    ex.on_id()
}

} // verus!
