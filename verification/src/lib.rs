//! A structural code search-and-rewrite library: it matches a structural
//! pattern against a source file's syntax tree, reports the matched spans,
//! and can rebuild the file's text from a set of non-overlapping edits.
//!
//! The syntax-tree parsing and pattern matching themselves are delegated to
//! the ast-grep engine; everything around them — edit reconciliation,
//! language resolution and rule gating, and the interactive review state
//! machine — is verified.
pub mod edit;
pub mod lang;
pub mod review;
pub mod rules;
pub mod scan;
