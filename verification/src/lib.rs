//! Trio resolution and reconciliation over three mirrored directory trees:
//! an immutable baseline, a sparse tree of per-file patch documents, and a
//! materialized output tree.
//!
//! The engine walks an in-memory snapshot of the baseline tree pre-order,
//! derives the two mirrored paths for every entry, validates that existing
//! mirror entries agree in kind with the baseline entry, and decides per
//! entry — fail-fast on the first fatal error — what to write: `build`
//! applies each patch document to its baseline file into the output tree,
//! `update` regenerates each patch document from the baseline and the edited
//! output.  The decisions come back as an ordered list of effects; reading
//! the trees from disk and performing the effects is the caller's business,
//! as is the document patch/diff algorithm itself, which the engine reaches
//! only through the narrow interface in [`document`].

pub mod commands;
pub mod config;
pub mod document;
pub mod error;
pub mod file_trio;
pub mod tree;
