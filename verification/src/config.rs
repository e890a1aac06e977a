//! Project descriptor: the persisted configuration that names the three tree
//! roots.  Loading it from disk is the caller's business; the engine only
//! consumes the plain values.

use vstd::prelude::*;

verus! {

/// The persisted project descriptor.
pub struct ProjectConfig {
    pub name: String,
    pub description: String,
    pub version: String,
    pub license: String,
    pub authors: Vec<String>,
    pub paths: ProjectPaths,
}

/// Names of the three tree roots: the read-only baseline (`original`), the
/// sparse patch mirror (`changes`) and the materialized output (`revise`).
pub struct ProjectPaths {
    pub original: String,
    pub changes: String,
    pub revise: String,
}

} // verus!
