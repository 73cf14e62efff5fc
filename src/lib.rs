//! Typed, read-only views over ActivityPub documents.
//!
//! A document is a tree of [`document::JsonValue`] nodes. Views borrow a node and
//! read vocabulary properties from it with their expected types, without copying.
//! IRIs are checked and resolved by the `url` crate's parser.
pub mod document;
pub mod iri;

pub use iri::{Iri, IriBuf};
