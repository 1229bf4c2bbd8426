//! The index: a document that lists a link to every note, one line each.
//! It starts as a header and only ever grows at its end.

use crate::paths::{index_file_name, index_path, joined_path};
use crate::plan::FileWrite;
use crate::stamp::{fresh_uuid, timestamp_now};
use vstd::prelude::*;

verus! {

/// The header of an index created at the time `now` under the identifier
/// `uuid`: the title, then both as attributes.
pub open spec fn index_header(now: Seq<char>, uuid: Seq<char>) -> Seq<char> {
    "= Index\n:revdate: "@ + now + "\n:uuid: "@ + uuid
}

/// A fresh index document: the header and an empty line, after which the
/// entries follow.
pub open spec fn index_document(now: Seq<char>, uuid: Seq<char>) -> Seq<char> {
    index_header(now, uuid) + "\n\n"@
}

/// The header of an index document.
#[derive(Debug)]
pub struct Index {
    now: String,
    uuid: String,
}

/// What the header of an index holds.
pub struct IndexView {
    /// The time of creation.
    pub now: Seq<char>,
    /// The identifier.
    pub uuid: Seq<char>,
}

impl View for Index {
    type V = IndexView;

    closed spec fn view(&self) -> IndexView {
        IndexView { now: self.now@, uuid: self.uuid@ }
    }
}

impl Index {
    /// The index document to create for the zettelkasten rooted at
    /// `root_path`, made now under a fresh identifier.
    pub fn init(root_path: &str) -> (write: FileWrite)
        ensures
            write.path@ == joined_path(root_path@, index_file_name()),
            exists|now: Seq<char>, uuid: Seq<char>| write.content@ == index_document(now, uuid),
    {
        let index = Index::from_parts(timestamp_now(), fresh_uuid());
        index.document(root_path)
    }

    /// The header of an index created at the time `now` under the identifier
    /// `uuid`.
    pub fn from_parts(now: String, uuid: String) -> (index: Self)
        ensures
            index@.now == now@,
            index@.uuid == uuid@,
    {
        Index { now, uuid }
    }

    /// The time of creation.
    pub fn timestamp(&self) -> (text: String)
        ensures
            text@ == self@.now,
    {
        self.now.clone()
    }

    /// The text of the header.
    pub fn render(&self) -> (text: String)
        ensures
            text@ == index_header(self@.now, self@.uuid),
    {
        let now = self.timestamp();
        String::from_str("= Index\n:revdate: ").concat(now.as_str()).concat("\n:uuid: ").concat(
            self.uuid.as_str(),
        )
    }

    /// The index document to create for the zettelkasten rooted at
    /// `root_path`, under this header.
    pub fn document(&self, root_path: &str) -> (write: FileWrite)
        ensures
            write.path@ == joined_path(root_path@, index_file_name()),
            write.content@ == index_document(self@.now, self@.uuid),
    {
        let content = self.render().concat("\n\n");
        FileWrite { path: index_path(root_path), content }
    }
}

} // verus!
