//! Collects the names that an editor can offer when an import statement is
//! typed in a TypeScript project: the dependencies that the project's manifest
//! declares, then a module specifier for each of its source files.

pub mod candidates;
pub mod exclude;
pub mod locate;
pub mod manifest;
pub mod sources;
pub mod specifier;
pub mod text;
