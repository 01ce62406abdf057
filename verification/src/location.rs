//! Where an object stands in its bucket: `object_store`'s `Path`.

use object_store::path::Path;
use vstd::prelude::*;

verus! {

/// The location of an object or of a prefix.
#[verifier::external_type_specification]
#[verifier::external_body]
pub struct ExPath(Path);

/// The characters that a `Path` holds.
pub uninterp spec fn path_text(path: Path) -> Seq<char>;

/// The characters of the path that a key is encoded to by `Path::from`: the
/// key's segments without the empty ones, each percent-encoded.
pub uninterp spec fn encoded_key(key: Seq<char>) -> Seq<char>;

/// Calls `<Path as From<&str>>::from`. It is trusted to compute its result
/// from the key's characters alone.
#[verifier::external_body]
pub(crate) fn path_from(key: &str) -> (path: Path)
    ensures
        path_text(path) == encoded_key(key@),
{
    Path::from(key)
}

/// Calls `<Path as AsRef<str>>::as_ref`. It is trusted to give the path's
/// characters.
#[verifier::external_body]
pub(crate) fn path_to_string(path: &Path) -> (text: String)
    ensures
        text@ == path_text(*path),
{
    path.as_ref().to_string()
}

} // verus!
