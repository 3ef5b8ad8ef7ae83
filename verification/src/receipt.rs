//! Receipts: proof objects tagged by the stage that produced them, carrying
//! the trace region their claim covers.

use vstd::prelude::*;
use crate::artifact::Artifact;

verus! {

/// The half-open range of segment indices `[start, end)` that a receipt's
/// claim covers. Two claims compose only when they are adjacent: the left
/// one's `end` is the right one's `start`.
#[derive(Clone, Copy, Debug, PartialEq, Eq, Structural)]
pub struct ClaimSpan {
    /// Index of the first segment covered.
    pub start: usize,
    /// One past the index of the last segment covered.
    pub end: usize,
}

impl ClaimSpan {
    /// A claim covers at least one segment.
    pub open spec fn wf(self) -> bool {
        self.start < self.end
    }
}

/// The verification class a receipt belongs to, determined by the stage that
/// produced it. A receipt produced by stage X is only ever consumed by the
/// stage that follows X, and a join only combines two receipts of the same
/// class.
#[derive(Clone, Copy, Debug, PartialEq, Eq, Structural)]
pub enum ReceiptStage {
    /// Produced by proving one segment; consumed by the lift stage.
    Proved,
    /// Produced by lifting a segment proof or by joining two succinct
    /// receipts; consumed by further joins or by the identity transform.
    Succinct,
    /// Produced by the identity transform, re-expressed in the target
    /// verification field; consumed by compression.
    TargetField,
}

/// A proof object flowing through the recursive stages of the pipeline.
#[derive(Clone, Debug, PartialEq, Eq)]
pub struct RecursiveReceipt {
    /// The proof itself, opaque.
    pub artifact: Artifact,
    /// The stage class the receipt was produced in.
    pub stage: ReceiptStage,
    /// The trace region the receipt's claim covers.
    pub claim: ClaimSpan,
}

/// The terminal compressed proof object, independent of the recursion
/// structure that produced it, meant for low-cost external verification.
#[derive(Clone, Debug, PartialEq, Eq)]
pub struct FinalCertificate {
    /// The compressed proof, opaque.
    pub artifact: Artifact,
    /// The trace region the certificate attests to.
    pub claim: ClaimSpan,
}

} // verus!
