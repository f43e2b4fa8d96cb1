//! A minimal incremental build tool in the spirit of `redo`: a target is
//! rebuilt by its build script only when the recorded fingerprints of its
//! dependencies no longer match the files' current content.
pub mod fingerprint;
pub mod dependency;
pub mod outcome;
pub mod target;
pub mod cache;
pub mod staleness;
