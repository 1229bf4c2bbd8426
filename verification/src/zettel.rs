//! A note: its name, slug and tags, the file it goes to and the text it
//! starts with.

use crate::config::Config;
use crate::error::{Collision, ZtlError};
use crate::paths::{index_file_name, index_path, join_path, joined_path};
use crate::plan::{FileWrite, IndexAppend};
use crate::slugs::{slugifies_to, slugify};
use crate::stamp::{fresh_uuid, timestamp_now};
use crate::text::{join, joined};
use vstd::prelude::*;

verus! {

/// The file name of the note with the slug `slug`.
pub open spec fn filename_of(slug: Seq<char>) -> Seq<char> {
    slug + ".adoc"@
}

/// The tags of a note as its header lists them.
pub open spec fn tag_list(tags: Seq<Seq<char>>) -> Seq<char> {
    joined(tags, ", "@)
}

/// The entry of the index that links to the file `filename` under the
/// display name `name`: one item of an ordered list, and the end of its line.
pub open spec fn index_line(filename: Seq<char>, name: Seq<char>) -> Seq<char> {
    ". <<"@ + filename + ", "@ + name + ">>\n"@
}

/// The text of a new note: the title, then the time of creation, the tags
/// and the identifier as attributes, then an empty section to write in.
pub open spec fn note_text(
    name: Seq<char>,
    now: Seq<char>,
    tags: Seq<Seq<char>>,
    uuid: Seq<char>,
) -> Seq<char> {
    "= "@ + name + "\n:revdate: "@ + now + "\n:keywords: "@ + tag_list(tags) + "\n:uuid: "@ + uuid
        + "\n\n== Notes\n"@
}

/// A note.
#[derive(Debug)]
pub struct Zettel {
    name: String,
    now: String,
    slug: String,
    tags: Vec<String>,
    uuid: String,
}

/// What a note holds.
pub struct ZettelView {
    /// The display name.
    pub name: Seq<char>,
    /// The time of creation.
    pub now: Seq<char>,
    /// The slug of the name.
    pub slug: Seq<char>,
    /// The tags, in the order given.
    pub tags: Seq<Seq<char>>,
    /// The identifier.
    pub uuid: Seq<char>,
}

impl View for Zettel {
    type V = ZettelView;

    closed spec fn view(&self) -> ZettelView {
        ZettelView {
            name: self.name@,
            now: self.now@,
            slug: self.slug@,
            tags: self.tags.deep_view(),
            uuid: self.uuid@,
        }
    }
}

impl ZettelView {
    /// The file name of the note.
    pub open spec fn filename(self) -> Seq<char> {
        filename_of(self.slug)
    }

    /// The note's entry in the index.
    pub open spec fn index_line(self) -> Seq<char> {
        index_line(self.filename(), self.name)
    }

    /// The text that the note starts with.
    pub open spec fn text(self) -> Seq<char> {
        note_text(self.name, self.now, self.tags, self.uuid)
    }

    /// Where the note goes in the zettelkasten rooted at `root`.
    pub open spec fn path(self, root: Seq<char>) -> Seq<char> {
        joined_path(root, self.filename())
    }
}

impl Zettel {
    /// The slug is that of the name: computed once, when the note is made.
    #[verifier::type_invariant]
    spec fn slug_is_of_name(&self) -> bool {
        slugifies_to(self.name@, self.slug@)
    }

    /// A note named `name` with the tags `tags`, created now under a fresh
    /// identifier.
    pub fn new(name: &str, tags: Vec<String>) -> (zettel: Self)
        ensures
            zettel@.name == name@,
            zettel@.tags == tags.deep_view(),
            slugifies_to(name@, zettel@.slug),
    {
        Zettel::from_parts(name, tags, timestamp_now(), fresh_uuid())
    }

    /// A note named `name` with the tags `tags`, the time of creation `now`
    /// and the identifier `uuid`.
    pub fn from_parts(name: &str, tags: Vec<String>, now: String, uuid: String) -> (zettel: Self)
        ensures
            zettel@.name == name@,
            zettel@.now == now@,
            zettel@.tags == tags.deep_view(),
            zettel@.uuid == uuid@,
            slugifies_to(name@, zettel@.slug),
    {
        Zettel { name: String::from_str(name), now, slug: slugify(name), tags, uuid }
    }

    /// The slug of the note's name.
    pub fn slug(&self) -> (slug: &str)
        ensures
            slug@ == self@.slug,
            slugifies_to(self@.name, slug@),
    {
        proof {
            use_type_invariant(self);
        }
        self.slug.as_str()
    }

    /// Where the note goes in the zettelkasten of `config`.
    pub fn path_buf(&self, config: &Config) -> (path: String)
        ensures
            path@ == self@.path(config.zettelkasten_root@),
    {
        let fname = self.filename();
        join_path(config.zettelkasten_root.as_str(), fname.as_str())
    }

    /// The name of the note's file: the slug and the extension `.adoc`.
    pub fn filename(&self) -> (name: String)
        ensures
            name@ == self@.slug + ".adoc"@,
    {
        self.slug.clone().concat(".adoc")
    }

    /// The tags, separated by a comma and a space.
    pub fn tags(&self) -> (list: String)
        ensures
            list@ == tag_list(self@.tags),
    {
        join(&self.tags, ", ")
    }

    /// The time of creation.
    pub fn timestamp(&self) -> (text: String)
        ensures
            text@ == self@.now,
    {
        self.now.clone()
    }

    /// The note's entry in the index.
    pub fn to_index_line(&self) -> (line: String)
        ensures
            line@ == self@.index_line(),
    {
        let fname = self.filename();
        String::from_str(". <<").concat(fname.as_str()).concat(", ").concat(
            self.name.as_str(),
        ).concat(">>\n")
    }

    /// The text that the note starts with.
    pub fn render(&self) -> (text: String)
        ensures
            text@ == self@.text(),
    {
        let tags = self.tags();
        let now = self.timestamp();
        String::from_str("= ").concat(self.name.as_str()).concat("\n:revdate: ").concat(
            now.as_str(),
        ).concat("\n:keywords: ").concat(tags.as_str()).concat("\n:uuid: ").concat(
            self.uuid.as_str(),
        ).concat("\n\n== Notes\n")
    }

    /// Decides on writing the note into the zettelkasten of `config`, given
    /// whether a file exists at the note's path already. An existing file is
    /// never overwritten: the note is refused. Otherwise the file to create
    /// holds the rendered note.
    pub fn render_to_file(&self, config: &Config, exists: bool) -> (decision: Result<
        FileWrite,
        ZtlError,
    >)
        ensures
            exists ==> (decision matches Err(ZtlError::PathAlreadyExists(Collision::Note, path))
                && path@ == self@.path(config.zettelkasten_root@)),
            !exists ==> (decision matches Ok(write) && write.path@ == self@.path(
                config.zettelkasten_root@,
            ) && write.content@ == self@.text()),
    {
        let adoc = self.render();
        let path = self.path_buf(config);
        if exists {
            Err(ZtlError::PathAlreadyExists(Collision::Note, path))
        } else {
            Ok(FileWrite { path, content: adoc })
        }
    }

    /// The line to add to the index of the zettelkasten of `config`, and the
    /// index document to add it to.
    pub fn write_to_index(&self, config: &Config) -> (append: IndexAppend)
        ensures
            append.path@ == joined_path(config.zettelkasten_root@, index_file_name()),
            append.line@ == self@.index_line(),
    {
        IndexAppend { path: index_path(config.zettelkasten_root.as_str()), line: self.to_index_line() }
    }
}

} // verus!
