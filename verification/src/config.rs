//! The configuration: where the zettelkasten lives.

use vstd::prelude::*;

verus! {

/// The tool's one setting.
#[derive(Debug)]
pub struct Config {
    /// The root directory of the zettelkasten.
    pub zettelkasten_root: String,
}

impl Default for Config {
    /// The configuration before any zettelkasten was set up: an empty root.
    fn default() -> (config: Self)
        ensures
            config.zettelkasten_root@ == Seq::<char>::empty(),
    {
        Config { zettelkasten_root: String::new() }
    }
}

impl Config {
    /// The configuration of a zettelkasten rooted at `root_path`.
    pub fn init(root_path: &str) -> (config: Self)
        ensures
            config.zettelkasten_root@ == root_path@,
    {
        Config { zettelkasten_root: String::from_str(root_path) }
    }
}

} // verus!
