use vstd::prelude::*;
use crate::api_error::opt_text;
use crate::ids::{format_id, id_text, lemma_id_text_is_plain_name};
use crate::text::has_char;
use crate::paths::{is_plain_dir, is_plain_name, join_path, path_join, path_with_file_name, replace_file_name};
use crate::routes::{start, files_dir, fresh, stage_fits_route, Action, Exchange, Route, Stage};

verus! {

/// The form of a file upload: the slot id and the client's name for the file
/// (the file's contents are handled outside the library).
pub struct Info {
    pub uuid: String,
    pub file_name: Option<String>,
}

/// The client's file name, or `temp.zip` when it gave none.
pub open spec fn upload_file_name(file_name: Option<Seq<char>>) -> Seq<char> {
    match file_name {
        Some(n) => n,
        None => "temp.zip"@,
    }
}

/// Whether the client's file name (or the default one) is a single plain
/// path component.
pub open spec fn is_plain_file_name(file_name: Option<Seq<char>>) -> bool {
    is_plain_name(upload_file_name(file_name))
}

/// The files directory is a plain directory path.
pub proof fn lemma_files_dir_is_plain()
    ensures
        is_plain_dir(files_dir()),
{
    reveal_strlit("apps/files");
    let d = files_dir();
    assert(d.len() == 10);
    assert(!has_char(d, '.')) by {
        assert forall|i: int| 0 <= i < d.len() implies d[i] != '.' by {}
    }
    assert forall|i: int| 0 <= i < d.len() - 1 implies !(#[trigger] d[i] == '/' && d[i + 1] == '/') by {}
}

/// Where the file received for slot `id` is stored: the client's file name
/// is placed under the files directory, then its last component is replaced
/// by the slot id.
pub open spec fn upload_destination(file_name: Option<Seq<char>>, id: u128) -> Seq<char> {
    path_with_file_name(path_join(files_dir(), upload_file_name(file_name)), id_text(id))
}

/// The path at which the file received for slot `id` is stored.
pub fn upload_destination_path(file_name: &Option<String>, id: u128) -> (res: String)
    ensures
        res@ == upload_destination(opt_text(*file_name), id),
        is_plain_file_name(opt_text(*file_name)) ==> res@ == files_dir() + seq!['/'] + id_text(id),
{
    let name = match file_name {
        Some(n) => n.clone(),
        None => "temp.zip".to_owned(),
    };
    proof {
        reveal_strlit("apps/files");
        reveal_strlit("temp.zip");
        lemma_id_text_is_plain_name(id);
        lemma_files_dir_is_plain();
        if is_plain_file_name(opt_text(*file_name)) {
            assert(is_plain_name(name@));
            assert(name@[0] != '/') by {
                assert(!has_char(name@, '/'));
                assert(name@[0] == name@[0]);
            }
        }
    }
    let joined = join_path("apps/files", name.as_str());
    let id_name = format_id(id);
    proof {
        if is_plain_file_name(opt_text(*file_name)) {
            assert(joined@ == files_dir() + seq!['/'] + name@);
        }
    }
    replace_file_name(joined.as_str(), id_name.as_str())
}

/// Starts answering a file upload: the slot id is read first.
pub fn get_upload(info: &Info) -> (res: (Exchange, Action))
    ensures
        (res.0@, res.1@) == start(fresh(Route::GetUpload, Seq::empty(), info.uuid@, opt_text(info.file_name))),
        stage_fits_route(res.0.stage, res.0.route),
        // The id text handed out for a slot is read back as that slot's id.
        forall|v: u128| info.uuid@ == #[trigger] id_text(v) ==> res.0.stage == Stage::Connecting && res.0.id == v,
{
    let file_name = match &info.file_name {
        Some(n) => Some(n.clone()),
        None => None,
    };
    let ex = Exchange::fresh(Route::GetUpload, String::new(), info.uuid.clone(), file_name);
    ex.on_id()
}

} // verus!
