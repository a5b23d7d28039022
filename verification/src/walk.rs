//! What to do with each entry of a content directory, and the
//! configuration of a directory's index page.

use vstd::prelude::*;
use crate::error::{BuildError, FlawView};
use crate::fields::{document_fields, required_text, FieldView, Table};
use crate::text::{extension, extension_of};

verus! {

/// The extension of the files that are built into pages.
pub const MARKUP_EXTENSION: &'static str = "md";

/// The extension of the files that configure a directory. They are neither
/// built nor copied.
pub const CONFIG_EXTENSION: &'static str = "toml";

/// The file whose presence gives a directory an index page.
pub const INDEX_CONFIG: &'static str = "index.toml";

/// What the file system says an entry of a directory is.
#[derive(Clone, Copy, Debug, PartialEq, Eq, Structural)]
pub enum EntryKind {
    Directory,
    File,
    /// Neither a directory nor a regular file.
    Other,
}

/// What the walker does with an entry of a directory.
#[derive(Clone, Copy, Debug, PartialEq, Eq, Structural)]
pub enum EntryAction {
    /// Walk the subdirectory; its pages belong to its own index.
    Descend,
    /// Build the page and add it to this directory's index.
    BuildPage,
    /// Leave the entry alone.
    Skip,
    /// Copy the file to the same place in the output tree.
    Copy,
}

/// The action for an entry of the given kind and file name.
pub open spec fn action_for(kind: EntryKind, file_name: Seq<char>) -> EntryAction {
    match kind {
        EntryKind::Directory => EntryAction::Descend,
        EntryKind::Other => EntryAction::Skip,
        EntryKind::File => {
            let ext = extension_of(file_name);
            if ext == Some(MARKUP_EXTENSION@) {
                EntryAction::BuildPage
            } else if ext == Some(CONFIG_EXTENSION@) {
                EntryAction::Skip
            } else {
                EntryAction::Copy
            }
        },
    }
}

/// Decides what the walker does with an entry of a directory.
pub fn classify_entry(kind: EntryKind, file_name: &str) -> (action: EntryAction)
    ensures
        action == action_for(kind, file_name@),
{
    match kind {
        EntryKind::Directory => EntryAction::Descend,
        EntryKind::Other => EntryAction::Skip,
        EntryKind::File => match extension(file_name) {
            Some(ext) => {
                if ext == MARKUP_EXTENSION.to_owned() {
                    EntryAction::BuildPage
                } else if ext == CONFIG_EXTENSION.to_owned() {
                    EntryAction::Skip
                } else {
                    EntryAction::Copy
                }
            },
            None => EntryAction::Copy,
        },
    }
}

/// The configuration of a directory's index page.
#[derive(Debug)]
pub struct IndexConfig {
    pub title: String,
}

/// The title that the text of an index configuration states, or why it
/// cannot be read.
pub open spec fn parsed_index_title(text: Seq<char>) -> Result<Seq<char>, FlawView> {
    match document_fields(text) {
        Ok(entries) => required_text(entries, "title"@),
        Err(flaw) => Err(flaw),
    }
}

impl IndexConfig {
    /// Reads an index configuration. It must state a title.
    pub fn parse(text: &str) -> (outcome: Result<IndexConfig, BuildError>)
        ensures
            match outcome {
                Ok(config) => parsed_index_title(text@) matches Ok(title) && title
                    == config.title@,
                Err(BuildError::ConfigError { reason }) => parsed_index_title(text@) matches Err(
                    flaw,
                ) && flaw == reason@,
                Err(_) => false,
            },
    {
        let table = match Table::parse(text) {
            Ok(table) => table,
            Err(reason) => return Err(BuildError::ConfigError { reason }),
        };
        match table.text("title") {
            Ok(title) => Ok(IndexConfig { title }),
            Err(reason) => Err(BuildError::ConfigError { reason }),
        }
    }
}

} // verus!
