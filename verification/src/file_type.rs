use vstd::prelude::*;

verus! {

/// The type of a file as recognised from its first bytes.
#[derive(Debug)]
pub struct FileType {
    /// Whether the type is of the archive family (zip, tar, gzip, 7z, ...).
    pub is_archive: bool,
    /// The MIME type, such as `application/zip`.
    pub mime_type: String,
}

/// The content of an optional [`FileType`]: the archive flag and the MIME type.
pub open spec fn file_type_view(t: Option<FileType>) -> Option<(bool, Seq<char>)> {
    match t {
        Some(t) => Some((t.is_archive, t.mime_type@)),
        None => None,
    }
}

/// What `infer::Infer::get` recognises in `bytes`: whether its matcher type is
/// `Archive`, and its MIME type; `None` when no matcher recognises them.
pub uninterp spec fn inferred_type(bytes: Seq<u8>) -> Option<(bool, Seq<char>)>;

/// Recognises the type of a file from its contents with `infer::Infer::get`.
///
/// Trusted: the result depends on the bytes alone (the first matcher of a
/// fixed list that accepts them). Which bytes make which type is not stated.
#[verifier::external_body]
pub(crate) fn infer_file_type(bytes: &[u8]) -> (res: Option<FileType>)
    ensures
        file_type_view(res) == inferred_type(bytes@),
{
    match infer::Infer::new().get(bytes) {
        Some(t) => Some(FileType {
            is_archive: matches!(t.matcher_type(), infer::MatcherType::Archive),
            mime_type: t.mime_type().to_string(),
        }),
        None => None,
    }
}

} // verus!
