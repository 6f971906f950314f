//! Core logic of a package-manifest submission assistant: decoding of remote
//! directory listings, the existing-submission gate, the submission menu state
//! machine and the planning of artifact writes.
pub mod gate;
pub mod tree;
pub mod workflow;
pub mod writer;
