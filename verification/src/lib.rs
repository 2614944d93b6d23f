//! Lockfile parsing and dependency version resolution.
//!
//! Given a package manifest and the lockfile that a package manager wrote
//! beside it, this library decides which declared dependency ranges can be
//! pinned to the exact version the lockfile committed to.  It recognizes
//! three lockfile ecosystems (npm, yarn, pnpm), several schema revisions
//! within each, resolves aliasing records, and computes the ordered list of
//! pin proposals.  All of it is pure: text in, values out.

pub mod command;
pub mod doc;
pub mod finder;
pub mod parser;
pub mod pin;
pub mod resolver;
pub mod spinner;
pub mod text;
pub mod types;
