//! Error taxonomy of the pipeline.

use vstd::prelude::*;

verus! {

/// Everything that can abort a pipeline run. Every kind is fatal: no stage
/// ever proceeds on an unverified or unpersisted intermediate artifact.
#[derive(Clone, Copy, Debug, PartialEq, Eq, Structural)]
pub enum ErrorKind {
    /// A parameter input was bad or missing: no hash suite is registered for
    /// the requested stage's field.
    Configuration,
    /// The verifier parameters could not be built from the given control
    /// identifiers (the set is empty, or too large to aggregate).
    ParameterBuild,
    /// The external proving backend reported a fault.
    Backend,
    /// An artifact failed its integrity check; either the backend corrupted
    /// it or the parameters do not match.
    Verification,
    /// The reduction tree was handed no receipts at all.
    EmptyInput,
    /// Receipts handed to the reduction tree carry claims that do not form a
    /// contiguous, non-overlapping trace region in the given order.
    ClaimMismatch,
    /// Receipts handed to the reduction tree were not all produced by the
    /// same stage.
    StageMismatch,
    /// The artifact store failed to persist or hand back a stage output.
    Persistence,
}

impl ErrorKind {
    /// A short stable name for reporting.
    pub fn name(&self) -> (r: &'static str)
    {
        match self {
            ErrorKind::Configuration => "configuration error",
            ErrorKind::ParameterBuild => "parameter build error",
            ErrorKind::Backend => "backend error",
            ErrorKind::Verification => "verification failure",
            ErrorKind::EmptyInput => "empty input error",
            ErrorKind::ClaimMismatch => "claim mismatch",
            ErrorKind::StageMismatch => "stage mismatch",
            ErrorKind::Persistence => "persistence error",
        }
    }
}

} // verus!
