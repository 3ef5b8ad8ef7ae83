//! Recursive proof-aggregation pipeline.
//!
//! A large execution trace is split into bounded segments, each segment is
//! proved independently, the per-segment proofs are lifted and then merged
//! pairwise by a binary reduction tree into a single proof, which is finally
//! re-expressed in the target verification field and compressed into one
//! succinct certificate.
//!
//! The crate verifies the orchestration logic: stage sequencing, the
//! reduction-tree algorithm, and the construction of the stage-specific
//! verifier parameters. The proving backend itself is an external
//! collaborator reached by the (unverified) binary that drives this library.

pub mod artifact;
pub mod digest;
pub mod errors;
pub mod joiner;
pub mod params;
pub mod pipeline;
pub mod receipt;
