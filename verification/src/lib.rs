//! A lint engine for the Nix language: rules describing anti-patterns,
//! a compiler from rules to tree-sitter queries, and an extractor that
//! turns query matches into diagnostics with their structural context.

pub mod backend;
pub mod engine;
pub mod extract;
pub mod files;
pub mod node;
pub mod pattern;
pub mod queries;
pub mod query;
