//! What can go wrong while a site is built.

use vstd::prelude::*;
use crate::path::SitePath;

verus! {

/// Why a metadata section or a configuration cannot be read.
#[derive(Debug)]
pub enum Flaw {
    /// The text is no TOML document; `message` is the parser's own.
    Syntax { message: String },
    /// The tables and arrays of the text nest deeper than is read.
    TooDeep,
    /// A required field is missing.
    Missing { field: String },
    /// A field holds a value of another type than it must.
    Mistyped { field: String },
    /// A field holds a string that stands for no calendar date.
    NotADate { field: String },
}

/// A flaw as a mathematical value.
pub enum FlawView {
    Syntax { message: Seq<char> },
    TooDeep,
    Missing { field: Seq<char> },
    Mistyped { field: Seq<char> },
    NotADate { field: Seq<char> },
}

impl View for Flaw {
    type V = FlawView;

    open spec fn view(&self) -> FlawView {
        match self {
            Flaw::Syntax { message } => FlawView::Syntax { message: message@ },
            Flaw::TooDeep => FlawView::TooDeep,
            Flaw::Missing { field } => FlawView::Missing { field: field@ },
            Flaw::Mistyped { field } => FlawView::Mistyped { field: field@ },
            Flaw::NotADate { field } => FlawView::NotADate { field: field@ },
        }
    }
}

/// An error that ends a build.
#[derive(Debug)]
pub enum BuildError {
    /// The site configuration, or a directory's index configuration, cannot
    /// be read.
    ConfigError { reason: Flaw },
    /// A content file lacks one of its two section markers, or has them in
    /// the wrong order.
    MalformedPage { path: SitePath },
    /// The metadata section of a content file cannot be read.
    InvalidMetadata { path: SitePath, reason: Flaw },
    /// A path does not lie where the build expects it.
    PathError { path: SitePath },
}

} // verus!
