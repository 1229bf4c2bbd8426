//! Paths below the zettelkasten root, as text.

use vstd::prelude::*;

verus! {

/// What `Path::join` gives for `file` adjoined to the directory `dir`, on the
/// platform that the library is built for.
pub uninterp spec fn joined_path(dir: Seq<char>, file: Seq<char>) -> Seq<char>;

/// The name of the index document inside the root.
pub open spec fn index_file_name() -> Seq<char> {
    "index.adoc"@
}

/// Calls `async_std::path::Path::join`. Trusted: the joined path is a
/// function of the two texts alone. Both are UTF-8, so turning the path back
/// into text loses nothing.
#[verifier::external_body]
pub(crate) fn join_path(dir: &str, file: &str) -> (path: String)
    ensures
        path@ == joined_path(dir@, file@),
{
    async_std::path::Path::new(dir).join(file).to_string_lossy().into_owned()
}

/// The path of the index document below `root`.
pub fn index_path(root: &str) -> (path: String)
    ensures
        path@ == joined_path(root@, index_file_name()),
{
    join_path(root, "index.adoc")
}

} // verus!
