//! Notes for a zettelkasten: a note's slug and file name, the text of a note
//! and of the index, and the decisions taken when one is created.

pub mod commands;
pub mod config;
pub mod error;
pub mod index;
pub mod paths;
pub mod plan;
pub mod slugs;
pub mod stamp;
pub mod text;
pub mod zettel;
