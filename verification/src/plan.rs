//! What is to be done on disk. The library decides and describes; its caller
//! carries the description out.

use vstd::prelude::*;

verus! {

/// A new file to create at `path`, holding `content` and nothing else.
#[derive(Debug)]
pub struct FileWrite {
    /// Where the file goes.
    pub path: String,
    /// All that the file holds.
    pub content: String,
}

/// A line to add at the end of the file at `path`, which has to exist.
#[derive(Debug)]
pub struct IndexAppend {
    /// The file to extend.
    pub path: String,
    /// What to add at its end.
    pub line: String,
}

/// All that creating a note does on disk, in this order: the note's file is
/// written first, then the index gets its line.
#[derive(Debug)]
pub struct NotePlan {
    /// The note's file.
    pub write: FileWrite,
    /// The note's entry in the index.
    pub append: IndexAppend,
}

} // verus!
