//! The failures that the tool reports, each with its one-line message.

use vstd::prelude::*;

verus! {

/// What stood in the way where a path was found to exist already.
#[derive(Clone, Copy, Debug, PartialEq, Eq, Structural)]
pub enum Collision {
    /// The directory chosen for a new zettelkasten.
    Root,
    /// The file of a new note.
    Note,
}

/// A failure. The tool refuses and reports: nothing is retried or repaired.
#[derive(Debug)]
pub enum ZtlError {
    /// The configuration could not be read; holds the reason.
    ConfigUnreadable(String),
    /// The configuration could not be saved; holds the reason.
    ConfigUnwritable(String),
    /// The path, the second field, exists already.
    PathAlreadyExists(Collision, String),
    /// The root directory could not be created; holds the reason.
    PathCreationFailure(String),
    /// The index document could not be extended; holds the reason.
    IndexAppendFailure(String),
    /// The command line named no known subcommand.
    UnrecognizedCommand,
}

impl ZtlError {
    /// The message shown to the user.
    pub open spec fn message_text(self) -> Seq<char> {
        match self {
            ZtlError::ConfigUnreadable(reason) => "Unable to open config file because "@ + reason@,
            ZtlError::ConfigUnwritable(reason) => "Unable to save config file because "@ + reason@,
            ZtlError::PathAlreadyExists(Collision::Root, path) =>
                "Unable to initialize new zettelkasten because "@ + path@ + " already exists"@,
            ZtlError::PathAlreadyExists(Collision::Note, path) => "Refusing to create "@ + path@
                + " because it already exists"@,
            ZtlError::PathCreationFailure(reason) => "Unable to initialize a new zettelkasten: "@
                + reason@,
            ZtlError::IndexAppendFailure(reason) => "Unable to add the zettel to the index: "@
                + reason@,
            ZtlError::UnrecognizedCommand => "Unrecognized subcommand, try 'help'"@,
        }
    }

    /// The message shown to the user.
    pub fn message(&self) -> (text: String)
        ensures
            text@ == self.message_text(),
    {
        match self {
            ZtlError::ConfigUnreadable(reason) => {
                String::from_str("Unable to open config file because ").concat(reason.as_str())
            },
            ZtlError::ConfigUnwritable(reason) => {
                String::from_str("Unable to save config file because ").concat(reason.as_str())
            },
            ZtlError::PathAlreadyExists(Collision::Root, path) => {
                String::from_str("Unable to initialize new zettelkasten because ").concat(
                    path.as_str(),
                ).concat(" already exists")
            },
            ZtlError::PathAlreadyExists(Collision::Note, path) => {
                String::from_str("Refusing to create ").concat(path.as_str()).concat(
                    " because it already exists",
                )
            },
            ZtlError::PathCreationFailure(reason) => {
                String::from_str("Unable to initialize a new zettelkasten: ").concat(
                    reason.as_str(),
                )
            },
            ZtlError::IndexAppendFailure(reason) => {
                String::from_str("Unable to add the zettel to the index: ").concat(reason.as_str())
            },
            ZtlError::UnrecognizedCommand => String::from_str("Unrecognized subcommand, try 'help'"),
        }
    }
}

} // verus!
