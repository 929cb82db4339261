//! The link-resolution core of a link checker.
//!
//! A link found in a document is text: a URL of its own, or a reference
//! relative to the document, to the root of its site or to its scheme.
//! This library turns such text into the one fully-qualified URL that it
//! points to. It derives the base of a document from where the document
//! came from, from a root directory and a base URL that the user declared,
//! and from a fallback base; it confines links from local files to the
//! directory of their base, whatever `..` they hold; and it maps URLs
//! between a remote site and the local directory that holds its files.
//!
//! URLs are parsed and joined by the `url` crate. What is proved here is
//! proved of every outcome that parsing and joining can have.

pub mod base_info;
pub mod config_field;
pub mod error;
pub mod input;
pub mod laws;
pub mod relative;
pub mod rooted;
pub mod text;
pub mod url_mapping;
pub mod url_model;
