//! Incremental-rebuild decisions for a single compilation unit: an output is
//! rebuilt when it is missing, when the command that builds it changed, or when
//! any input it was built from is not strictly older than it.

pub mod decision;
pub mod fingerprint;
pub mod json_deps;
pub mod make_deps;
pub mod timestamps;
