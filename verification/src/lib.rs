//! Cross-instance issue reconciliation engine.
//!
//! Given two instances of a project-management API (a source and a
//! destination), the library resolves a user on each side, harvests the
//! issues of every visible project page by page, pairs a source issue with
//! a destination issue when their short reference identifiers are equal,
//! and drives a confirmation-gated reassignment of each matched destination
//! issue. All network and terminal work is left to the caller: the library
//! states which request to make next and folds each response into its state.

pub mod args;
pub mod collect;
pub mod diag;
pub mod driver;
pub mod identity;
pub mod matching;
pub mod routing;
pub mod types;
