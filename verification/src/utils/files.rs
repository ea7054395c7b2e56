use vstd::prelude::*;
use crate::file_type::{file_type_view, FileType};

verus! {

/// What a received file turned out to be.
#[derive(Debug, PartialEq, Eq, Structural, Clone, Copy)]
pub enum FileVerdict {
    /// An archive: the upload is accepted.
    Archive,
    /// A recognised type other than an archive: the upload is refused.
    NotArchive,
    /// An unrecognised type: the upload is refused and the file deleted.
    Unknown,
}

/// The verdict on a file whose recognised type is `t` (archive flag, MIME type).
pub open spec fn verdict_of(t: Option<(bool, Seq<char>)>) -> FileVerdict {
    match t {
        None => FileVerdict::Unknown,
        Some((is_archive, _)) => if is_archive {
            FileVerdict::Archive
        } else {
            FileVerdict::NotArchive
        },
    }
}

/// Judges a received file by the type recognised in its contents: only
/// archives are accepted.
pub fn verify_file(detected: &Option<FileType>) -> (res: FileVerdict)
    ensures
        res == verdict_of(file_type_view(*detected)),
{
    match detected {
        None => FileVerdict::Unknown,
        Some(t) => if t.is_archive {
            FileVerdict::Archive
        } else {
            FileVerdict::NotArchive
        },
    }
}

} // verus!
