//! A static-site content pipeline: front-matter parsing, output path rules,
//! markup rendering with highlighted code blocks, and dated directory indexes.
//!
//! The library works on plain values: file contents as text, paths as
//! sequences of component names. Reading and writing files, running the
//! templates and watching for changes are left to the program around it.
//!
//! - [`page`] splits a content file into metadata and body and builds the page.
//! - [`context`] maps content paths to output paths and links.
//! - [`markdown`] and [`markup`] render a body, highlighting its code blocks.
//! - [`index`] lists the pages of a directory, newest first.
//! - [`walk`] decides what is done with each entry of a content directory.
//! - [`watch`] holds the decisions of the serve loop.
//! - [`config`], [`fields`], [`nesting`], [`date`], [`path`], [`text`],
//!   [`theme`] and [`error`] hold what the others are built from.

pub mod config;
pub mod context;
pub mod date;
pub mod error;
pub mod fields;
pub mod index;
pub mod markdown;
pub mod markup;
pub mod nesting;
pub mod page;
pub mod path;
pub mod text;
pub mod theme;
pub mod walk;
pub mod watch;
