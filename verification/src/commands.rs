//! The two commands of the tool, and what each decides before anything is
//! written.

use crate::config::Config;
use crate::error::{Collision, ZtlError};
use crate::paths::{index_file_name, joined_path};
use crate::plan::NotePlan;
use crate::zettel::Zettel;
use vstd::prelude::*;

verus! {

/// What the user asked for.
#[derive(Debug)]
pub enum Command {
    /// `init <ZETTELKASTEN_ROOT>`: set up a zettelkasten in a new directory.
    Init { root_path: String },
    /// `new <ZETTEL_NAME> [--tag TAG]...`: create a note.
    New { name: String, tags: Vec<String> },
}

/// The name of the subcommand that sets up a zettelkasten.
pub open spec fn init_name() -> Seq<char> {
    "init"@
}

/// The name of the subcommand that creates a note.
pub open spec fn new_name() -> Seq<char> {
    "new"@
}

/// Tells the subcommands apart. `argument` is the subcommand's one
/// positional argument, which both known subcommands require; `tags` are the
/// values of the repeatable tag option, in the order given. Any other
/// subcommand is not recognised.
pub fn dispatch(subcommand: &str, argument: Option<String>, tags: Vec<String>) -> (command: Result<
    Command,
    ZtlError,
>)
    requires
        subcommand@ == init_name() || subcommand@ == new_name() ==> argument is Some,
    ensures
        subcommand@ == init_name() ==> (command matches Ok(Command::Init { root_path })
            && root_path@ == argument->0@),
        subcommand@ == new_name() ==> (command matches Ok(Command::New { name, tags: given })
            && name@ == argument->0@ && given.deep_view() == tags.deep_view()),
        subcommand@ != init_name() && subcommand@ != new_name() ==> command matches Err(
            ZtlError::UnrecognizedCommand,
        ),
{
    proof {
        reveal_strlit("init");
        reveal_strlit("new");
        assert(init_name().len() != new_name().len());
    }
    let chosen = String::from_str(subcommand);
    if chosen == String::from_str("init") {
        Ok(Command::Init { root_path: argument.unwrap() })
    } else if chosen == String::from_str("new") {
        Ok(Command::New { name: argument.unwrap(), tags })
    } else {
        Err(ZtlError::UnrecognizedCommand)
    }
}

/// Decides on setting up a zettelkasten at `path`, given whether anything
/// exists there already. An existing path is left alone: the set-up is
/// refused. Otherwise the result is the directory to create.
pub fn init_zettelkasten(path: &str, exists: bool) -> (decision: Result<String, ZtlError>)
    ensures
        exists ==> (decision matches Err(ZtlError::PathAlreadyExists(Collision::Root, refused))
            && refused@ == path@),
        !exists ==> (decision matches Ok(directory) && directory@ == path@),
{
    if exists {
        Err(ZtlError::PathAlreadyExists(Collision::Root, String::from_str(path)))
    } else {
        Ok(String::from_str(path))
    }
}

/// Decides on adding `zettel` to the zettelkasten of `config`, given whether
/// a file exists at the note's path already. An existing file is left as it
/// is and the index is not touched: the note is refused. Otherwise the note's
/// file is to be created with the rendered note and the index is to get the
/// note's line.
pub fn new_zettel(zettel: &Zettel, config: &Config, exists: bool) -> (decision: Result<
    NotePlan,
    ZtlError,
>)
    ensures
        exists ==> (decision matches Err(ZtlError::PathAlreadyExists(Collision::Note, refused))
            && refused@ == zettel@.path(config.zettelkasten_root@)),
        !exists ==> (decision matches Ok(plan) && plan.write.path@ == zettel@.path(
            config.zettelkasten_root@,
        ) && plan.write.content@ == zettel@.text() && plan.append.path@ == joined_path(
            config.zettelkasten_root@,
            index_file_name(),
        ) && plan.append.line@ == zettel@.index_line()),
{
    match zettel.render_to_file(config, exists) {
        Ok(write) => Ok(NotePlan { write, append: zettel.write_to_index(config) }),
        Err(refusal) => Err(refusal),
    }
}

} // verus!
