//! Shallow declaration extraction for a Hack-style language.
//!
//! The crate reduces an already-parsed concrete syntax tree, bottom-up, into a
//! lightweight table of top-level declarations: classes, functions, type
//! aliases and constants.  An external parser drives the reduction by calling
//! one `make_*` constructor per recognised grammar production; each call
//! receives the already-reduced children and returns a reduced node or a
//! descriptive failure.
//!
//! The crate also provides the source-position representation used to tag a
//! constant's type provenance, and a small generator of bytecode labels.

pub mod constructors;
pub mod decls;
pub mod escapes;
pub mod flatten;
pub mod label;
pub mod names;
pub mod node;
pub mod pos;
pub mod text;
