//! Library of a SPARQL language server.
//!
//! The centre of the crate is the formatting engine in [`format`]: a
//! recursive pretty-printer over the model syntax tree of [`syntax`],
//! verified against a specification-level mirror of the whole transform.

pub mod capabilities;
pub mod dispatch;
pub mod format;
pub mod settings;
pub mod syntax;
pub mod text;
pub mod textdocument;
