//! Generation of random-value constructors for annotated type declarations.
//!
//! Given an in-memory declaration of a record type or a tagged union, the
//! library resolves the per-site `arbitrary(...)` annotations into strategies
//! and synthesizes a construction recipe: for each field, whether its value is
//! drawn recursively, produced by a user-supplied generator expression, or
//! taken from the type's default; for a tagged union, which variants take part
//! in the uniform selection among candidates.

pub mod config;
pub mod decl;
pub mod errors;
pub mod laws;
pub mod resolve;
pub mod scan;
pub mod synth;
