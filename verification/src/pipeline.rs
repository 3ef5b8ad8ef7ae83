//! The pipeline orchestrator: sequences segmenting, proving and lifting each
//! segment, the join reduction tree, the identity transform and compression,
//! verifying every intermediate artifact before advancing and persisting
//! every stage output before proceeding.
//!
//! The orchestrator is a state machine. It names the next operation owed
//! (`command`), the unverified driver performs it against the external
//! backend and the artifact store, and hands the outcome back (`apply`). A
//! verification failure, a backend fault, or a persistence failure aborts the
//! run: an aborted pipeline never issues another command.

use vstd::prelude::*;
use crate::artifact::Artifact;
use crate::digest::Digest;
use crate::errors::ErrorKind;
use crate::joiner::{Joiner, joiner_step, valid_inputs, reduction_rounds};
use crate::params::{
    MAX_CONTROL_IDS, SuiteRegistry, VerifierParameters, all_fit, build_verifier_parameters,
    opt_words, spec_verifier_parameters, suite_for, words_of,
};
use crate::receipt::{ClaimSpan, FinalCertificate, ReceiptStage, RecursiveReceipt};

verus! {

/// One backend operation, named in per-step reports.
#[derive(Clone, Copy, Debug, PartialEq, Eq, Structural)]
pub enum StepKind {
    /// Proving one segment.
    Prove,
    /// Lifting one segment proof.
    Lift,
    /// Joining two adjacent receipts.
    Join,
    /// Re-expressing the joined receipt in the target field.
    IdentityTransform,
    /// Compressing into the final certificate.
    Compress,
}

/// What one backend operation took, for the caller's observability sink.
#[derive(Clone, Copy, Debug, PartialEq, Eq, Structural)]
pub struct StageReport {
    /// The operation performed.
    pub step: StepKind,
    /// Elapsed wall-clock seconds the backend took.
    pub seconds: u64,
}

/// Where the run stands.
#[derive(Clone, Copy, Debug, PartialEq, Eq, Structural)]
pub enum Phase {
    /// Waiting for the executor to split the trace into segments.
    Segmenting,
    /// Waiting for the proof of the segment under the cursor.
    Proving,
    /// Waiting for the integrity check of that segment proof.
    CheckingProved,
    /// Waiting for the lift of the verified segment proof.
    Lifting,
    /// Waiting for the integrity check of the lifted receipt.
    CheckingLifted,
    /// Waiting for the lifted receipt to be persisted.
    StoringLifted,
    /// Waiting for the join of the reduction tree's pending pair.
    Joining,
    /// Waiting for the integrity check of the joined receipt.
    CheckingJoined,
    /// Waiting for the reduction's result to be persisted.
    StoringJoined,
    /// Waiting for the identity transform of the joined receipt.
    Transforming,
    /// Waiting for the integrity check of the transformed receipt.
    CheckingTransformed,
    /// Waiting for the transformed receipt to be persisted.
    StoringTransformed,
    /// Waiting for compression into the final certificate.
    Compressing,
    /// Waiting for the certificate to be persisted.
    StoringCertificate,
    /// The certificate is ready and persisted.
    Complete,
    /// The run failed; `failure` holds the kind.
    Aborted,
}

/// The next operation the orchestrator directs its driver to perform.
#[derive(Clone, Copy, Debug, PartialEq, Eq)]
pub enum Command {
    /// Run the executor over the program image under the size limit.
    RunSegmenter {
        /// Log2 of the maximum cycles per segment.
        po2: u32,
    },
    /// Prove the segment at this index.
    ProveSegment {
        /// Index into the segment sequence.
        index: usize,
    },
    /// Check the pending segment proof with the backend's segment defaults.
    VerifyProved,
    /// Lift the pending verified segment proof.
    Lift,
    /// Check the pending receipt against these parameters.
    VerifyReceipt {
        /// The stage's verifier parameters.
        params: VerifierParameters,
    },
    /// Persist the lifted receipt of the segment at this index.
    PersistLifted {
        /// Index into the segment sequence.
        index: usize,
    },
    /// Join the receipts at these adjacent positions of the current level.
    Join {
        /// Left position.
        left: usize,
        /// Right position, always `left + 1`.
        right: usize,
    },
    /// Persist the reduction tree's result.
    PersistJoined,
    /// Re-express the joined receipt in the target verification field.
    IdentityTransform,
    /// Persist the transformed receipt.
    PersistTransformed,
    /// Compress the transformed receipt into the final certificate.
    Compress,
    /// Persist the final certificate.
    PersistCertificate,
    /// Nothing more to do: the run is complete or aborted.
    Halt,
}

/// The outcome of one driver operation, handed back to the orchestrator.
pub enum Event {
    /// The executor produced the ordered segment artifacts.
    SegmentsReady {
        /// The segments, in trace order.
        segments: Vec<Artifact>,
    },
    /// The prove operation returned this artifact.
    Proved {
        /// The segment proof.
        artifact: Artifact,
        /// Elapsed seconds.
        seconds: u64,
    },
    /// The lift operation returned this artifact.
    Lifted {
        /// The lifted receipt.
        artifact: Artifact,
        /// Elapsed seconds.
        seconds: u64,
    },
    /// The join operation returned this artifact.
    Joined {
        /// The joined receipt.
        artifact: Artifact,
        /// Elapsed seconds.
        seconds: u64,
    },
    /// The identity transform returned this artifact.
    Transformed {
        /// The receipt over the target field.
        artifact: Artifact,
        /// Elapsed seconds.
        seconds: u64,
    },
    /// The compress operation returned this artifact.
    Compressed {
        /// The final certificate's bytes.
        artifact: Artifact,
        /// Elapsed seconds.
        seconds: u64,
    },
    /// The pending artifact passed its integrity check.
    VerifyOk,
    /// The pending artifact failed its integrity check.
    VerifyFailed,
    /// The artifact store persisted the stage output.
    Persisted,
    /// The artifact store failed.
    PersistFailed,
    /// The backend reported a fault.
    BackendFailed,
}

/// Everything a run is configured with.
pub struct PipelineConfig {
    /// Log2 of the maximum cycles per segment.
    pub po2_limit: u32,
    /// The per-run control identifiers accepted for lifted and joined
    /// receipts.
    pub succinct_control_ids: Vec<Digest>,
    /// The fixed, protocol-defined control identifiers accepted for the
    /// transformed receipt, bound to globally fixed trust anchors.
    pub target_field_control_ids: Vec<Digest>,
    /// The control root nested inside the transformed receipt.
    pub target_field_inner_root: Option<Digest>,
    /// The hash suites registered with the verifier.
    pub registry: SuiteRegistry,
}

/// A configuration the orchestrator accepts: both stages' suites registered
/// and both control identifier sets aggregable.
pub open spec fn config_ok(config: PipelineConfig) -> bool {
    &&& config.registry.spec_has(suite_for(ReceiptStage::Succinct))
    &&& config.registry.spec_has(suite_for(ReceiptStage::TargetField))
    &&& 1 <= config.succinct_control_ids@.len() <= MAX_CONTROL_IDS
    &&& 1 <= config.target_field_control_ids@.len() <= MAX_CONTROL_IDS
    &&& all_fit(suite_for(ReceiptStage::Succinct), config.succinct_control_ids@)
    &&& all_fit(suite_for(ReceiptStage::TargetField), config.target_field_control_ids@)
}

/// The error owed for a configuration the orchestrator rejects, in the
/// order the two parameter sets are built.
pub open spec fn config_error(config: PipelineConfig) -> ErrorKind {
    if !config.registry.spec_has(suite_for(ReceiptStage::Succinct)) {
        ErrorKind::Configuration
    } else if !(1 <= config.succinct_control_ids@.len() <= MAX_CONTROL_IDS) || !all_fit(
        suite_for(ReceiptStage::Succinct),
        config.succinct_control_ids@,
    ) {
        ErrorKind::ParameterBuild
    } else if !config.registry.spec_has(suite_for(ReceiptStage::TargetField)) {
        ErrorKind::Configuration
    } else {
        ErrorKind::ParameterBuild
    }
}

/// The orchestrator's state.
pub struct Pipeline {
    /// Where the run stands.
    pub phase: Phase,
    /// Log2 of the maximum cycles per segment.
    pub po2_limit: u32,
    /// Parameters checking lifted and joined receipts, fixed at construction.
    pub succinct_params: VerifierParameters,
    /// Parameters checking the transformed receipt, fixed at construction.
    pub target_field_params: VerifierParameters,
    /// The segment artifacts, in trace order.
    pub segments: Vec<Artifact>,
    /// The segment currently being proved and lifted.
    pub cursor: usize,
    /// The artifact last returned by the backend, awaiting its integrity
    /// check or its consumption by the next step.
    pub pending: Option<Artifact>,
    /// The verified lifted receipts, one per segment, in trace order.
    pub lifted: Vec<RecursiveReceipt>,
    /// The reduction tree, while joining.
    pub joiner: Option<Joiner>,
    /// The reduction's result.
    pub joined: Option<RecursiveReceipt>,
    /// The identity-transformed receipt.
    pub transformed: Option<RecursiveReceipt>,
    /// The final certificate.
    pub certificate: Option<FinalCertificate>,
    /// Elapsed time of every completed backend operation, in order.
    pub reports: Vec<StageReport>,
    /// Why the run aborted, when it did.
    pub failure: Option<ErrorKind>,
    /// The phase the run was in when it aborted.
    pub failed_during: Option<Phase>,
}

impl Pipeline {
    /// Every lifted receipt is succinct and covers exactly its own segment.
    pub open spec fn lifted_wf(self) -> bool {
        forall|i: int|
            0 <= i < self.lifted@.len() ==> {
                &&& (#[trigger] self.lifted@[i]).stage == ReceiptStage::Succinct
                &&& self.lifted@[i].claim.start == i
                &&& self.lifted@[i].claim.end == i + 1
            }
    }

    /// The reduction tree, while one is at work.
    pub open spec fn the_joiner(self) -> Joiner {
        self.joiner->0
    }

    /// The joiner reduces exactly the lifted receipts: one receipt per
    /// segment, covering the whole trace end to end.
    pub open spec fn joiner_tied(self) -> bool {
        &&& self.joiner is Some
        &&& self.the_joiner().inv()
        &&& self.the_joiner().inputs@.len() == self.segments@.len()
        &&& self.the_joiner().inputs@.first().claim.start == 0
        &&& self.the_joiner().inputs@.last().claim.end == self.segments@.len()
        &&& self.the_joiner().inputs@[0].stage == ReceiptStage::Succinct
    }

    /// A claim covering the whole trace, one segment per input.
    pub open spec fn covers_trace(self, c: ClaimSpan) -> bool {
        &&& c.start == 0
        &&& c.end == self.segments@.len()
    }

    /// Well-formedness of the state, phase by phase.
    pub open spec fn inv(self) -> bool {
        &&& self.lifted_wf()
        &&& (self.failure is Some <==> self.phase is Aborted)
        &&& (self.failed_during is Some <==> self.phase is Aborted)
        &&& match self.phase {
            Phase::Segmenting => {
                &&& self.segments@.len() == 0
                &&& self.cursor == 0
                &&& self.lifted@.len() == 0
                &&& self.pending is None
                &&& self.joiner is None
                &&& self.joined is None
            },
            Phase::Proving => {
                &&& self.cursor < self.segments@.len()
                &&& self.lifted@.len() == self.cursor
                &&& self.pending is None
                &&& self.joiner is None
                &&& self.joined is None
            },
            Phase::CheckingProved | Phase::Lifting => {
                &&& self.cursor < self.segments@.len()
                &&& self.lifted@.len() == self.cursor
                &&& self.pending is Some
                &&& self.joiner is None
                &&& self.joined is None
            },
            Phase::CheckingLifted => {
                &&& self.cursor < self.segments@.len()
                &&& self.lifted@.len() == self.cursor
                &&& self.pending is Some
                &&& self.joiner is None
                &&& self.joined is None
            },
            Phase::StoringLifted => {
                &&& self.cursor < self.segments@.len()
                &&& self.lifted@.len() == self.cursor + 1
                &&& self.pending is None
                &&& self.joiner is None
                &&& self.joined is None
            },
            Phase::Joining => {
                &&& self.joiner_tied()
                &&& !self.the_joiner().done()
                &&& self.pending is None
                &&& self.joined is None
            },
            Phase::CheckingJoined => {
                &&& self.joiner_tied()
                &&& !self.the_joiner().done()
                &&& self.pending is Some
                &&& self.joined is None
            },
            Phase::StoringJoined => {
                &&& self.joiner_tied()
                &&& self.the_joiner().done()
                &&& self.pending is None
                &&& self.joined is None
            },
            Phase::Transforming => {
                &&& self.joined matches Some(r) && self.covers_trace(r.claim) && r.stage
                    == ReceiptStage::Succinct
                &&& self.segments@.len() >= 1
                &&& self.pending is None
                &&& self.joiner is None
            },
            Phase::CheckingTransformed => {
                &&& self.joined matches Some(r) && self.covers_trace(r.claim)
                &&& self.segments@.len() >= 1
                &&& self.pending is Some
                &&& self.joiner is None
            },
            Phase::StoringTransformed | Phase::Compressing => {
                &&& self.transformed matches Some(t) && self.covers_trace(t.claim) && t.stage
                    == ReceiptStage::TargetField
                &&& self.segments@.len() >= 1
                &&& self.pending is None
            },
            Phase::StoringCertificate | Phase::Complete => {
                &&& self.certificate matches Some(c) && self.covers_trace(c.claim)
                &&& self.segments@.len() >= 1
            },
            Phase::Aborted => true,
        }
    }

    /// Builds the orchestrator: both stages' verifier parameters are derived
    /// once, deterministically, from the configuration; a configuration
    /// whose suites or control identifier sets the parameter builder rejects
    /// is rejected with that builder's error.
    pub fn new(config: PipelineConfig) -> (r: Result<Pipeline, ErrorKind>)
        ensures
            match r {
                Ok(p) => {
                    &&& config_ok(config)
                    &&& p.inv()
                    &&& p.phase == Phase::Segmenting
                    &&& p.po2_limit == config.po2_limit
                    &&& p.succinct_params@ == spec_verifier_parameters(
                        ReceiptStage::Succinct,
                        words_of(config.succinct_control_ids@),
                        None,
                    )
                    &&& p.target_field_params@ == spec_verifier_parameters(
                        ReceiptStage::TargetField,
                        words_of(config.target_field_control_ids@),
                        opt_words(config.target_field_inner_root),
                    )
                    &&& p.reports@.len() == 0
                },
                Err(e) => {
                    &&& !config_ok(config)
                    &&& e == config_error(config)
                },
            },
    {
        let succinct_params = match build_verifier_parameters(
            ReceiptStage::Succinct,
            &config.succinct_control_ids,
            None,
            &config.registry,
        ) {
            Ok(p) => p,
            Err(e) => {
                return Err(e);
            },
        };
        let target_field_params = match build_verifier_parameters(
            ReceiptStage::TargetField,
            &config.target_field_control_ids,
            config.target_field_inner_root,
            &config.registry,
        ) {
            Ok(p) => p,
            Err(e) => {
                return Err(e);
            },
        };
        Ok(
            Pipeline {
                phase: Phase::Segmenting,
                po2_limit: config.po2_limit,
                succinct_params,
                target_field_params,
                segments: Vec::new(),
                cursor: 0,
                pending: None,
                lifted: Vec::new(),
                joiner: None,
                joined: None,
                transformed: None,
                certificate: None,
                reports: Vec::new(),
                failure: None,
                failed_during: None,
            },
        )
    }

    /// The operation owed for the current phase.
    pub open spec fn spec_command(self) -> Command {
        match self.phase {
            Phase::Segmenting => Command::RunSegmenter { po2: self.po2_limit },
            Phase::Proving => Command::ProveSegment { index: self.cursor },
            Phase::CheckingProved => Command::VerifyProved,
            Phase::Lifting => Command::Lift,
            Phase::CheckingLifted => Command::VerifyReceipt { params: self.succinct_params },
            Phase::StoringLifted => Command::PersistLifted { index: self.cursor },
            Phase::Joining => Command::Join {
                left: self.the_joiner().pos,
                right: (self.the_joiner().pos + 1) as usize,
            },
            Phase::CheckingJoined => Command::VerifyReceipt { params: self.succinct_params },
            Phase::StoringJoined => Command::PersistJoined,
            Phase::Transforming => Command::IdentityTransform,
            Phase::CheckingTransformed => Command::VerifyReceipt {
                params: self.target_field_params,
            },
            Phase::StoringTransformed => Command::PersistTransformed,
            Phase::Compressing => Command::Compress,
            Phase::StoringCertificate => Command::PersistCertificate,
            Phase::Complete => Command::Halt,
            Phase::Aborted => Command::Halt,
        }
    }

    /// Names the next operation. A join is only ever directed at two
    /// positionally adjacent elements of the reduction's current level.
    pub fn command(&self) -> (c: Command)
        requires
            self.inv(),
        ensures
            c == self.spec_command(),
    {
        match self.phase {
            Phase::Segmenting => Command::RunSegmenter { po2: self.po2_limit },
            Phase::Proving => Command::ProveSegment { index: self.cursor },
            Phase::CheckingProved => Command::VerifyProved,
            Phase::Lifting => Command::Lift,
            Phase::CheckingLifted => Command::VerifyReceipt { params: self.succinct_params },
            Phase::StoringLifted => Command::PersistLifted { index: self.cursor },
            Phase::Joining => {
                match &self.joiner {
                    Some(j) => Command::Join { left: j.pos, right: j.pos + 1 },
                    None => Command::Halt,
                }
            },
            Phase::CheckingJoined => Command::VerifyReceipt { params: self.succinct_params },
            Phase::StoringJoined => Command::PersistJoined,
            Phase::Transforming => Command::IdentityTransform,
            Phase::CheckingTransformed => Command::VerifyReceipt {
                params: self.target_field_params,
            },
            Phase::StoringTransformed => Command::PersistTransformed,
            Phase::Compressing => Command::Compress,
            Phase::StoringCertificate => Command::PersistCertificate,
            Phase::Complete => Command::Halt,
            Phase::Aborted => Command::Halt,
        }
    }
}

impl Pipeline {
    /// Whether an event answers the current phase's command.
    pub open spec fn expects(self, e: Event) -> bool {
        match e {
            Event::SegmentsReady { .. } => self.phase is Segmenting,
            Event::Proved { .. } => self.phase is Proving,
            Event::Lifted { .. } => self.phase is Lifting,
            Event::Joined { .. } => self.phase is Joining,
            Event::Transformed { .. } => self.phase is Transforming,
            Event::Compressed { .. } => self.phase is Compressing,
            Event::VerifyOk | Event::VerifyFailed => self.phase is CheckingProved || self.phase
                is CheckingLifted || self.phase is CheckingJoined || self.phase
                is CheckingTransformed,
            Event::Persisted | Event::PersistFailed => self.phase is StoringLifted || self.phase
                is StoringJoined || self.phase is StoringTransformed || self.phase
                is StoringCertificate,
            Event::BackendFailed => self.phase is Segmenting || self.phase is Proving
                || self.phase is Lifting || self.phase is Joining || self.phase is Transforming
                || self.phase is Compressing,
        }
    }

    /// The run is over, well or badly.
    pub open spec fn halted(self) -> bool {
        self.phase is Complete || self.phase is Aborted
    }

    /// Feeds one driver outcome back. An event that does not answer the
    /// current command, or arrives after the run halted, is refused and
    /// changes nothing. A verification failure, a persistence failure or a
    /// backend fault aborts the run at once; every success advances exactly
    /// one step, verifying each artifact before it is consumed and
    /// persisting each stage output before the next stage begins.
    pub fn apply(&mut self, e: Event) -> (accepted: bool)
        requires
            old(self).inv(),
        ensures
            final(self).inv(),
            accepted == (!old(self).halted() && old(self).expects(e)),
            !accepted ==> *final(self) == *old(self),
            accepted ==> match e {
                Event::SegmentsReady { segments } => {
                    &&& (segments@.len() == 0 ==> final(self).phase is Aborted && final(self).failure == Some(ErrorKind::EmptyInput) && final(self).failed_during == Some(
                        Phase::Segmenting,
                    ))
                    &&& (segments@.len() >= 1 ==> {
                        &&& final(self).phase is Proving
                        &&& final(self).segments == segments
                        &&& final(self).cursor == 0
                    })
                },
                Event::Proved { artifact, seconds } => {
                    &&& final(self).phase is CheckingProved
                    &&& final(self).pending == Some(artifact)
                    &&& final(self).reports@ == old(self).reports@.push(
                        StageReport { step: StepKind::Prove, seconds },
                    )
                },
                Event::Lifted { artifact, seconds } => {
                    &&& final(self).phase is CheckingLifted
                    &&& final(self).pending == Some(artifact)
                    &&& final(self).reports@ == old(self).reports@.push(
                        StageReport { step: StepKind::Lift, seconds },
                    )
                },
                Event::Joined { artifact, seconds } => {
                    &&& final(self).phase is CheckingJoined
                    &&& final(self).pending == Some(artifact)
                    &&& final(self).reports@ == old(self).reports@.push(
                        StageReport { step: StepKind::Join, seconds },
                    )
                },
                Event::Transformed { artifact, seconds } => {
                    &&& final(self).phase is CheckingTransformed
                    &&& final(self).pending == Some(artifact)
                    &&& final(self).joined == old(self).joined
                    &&& final(self).reports@ == old(self).reports@.push(
                        StageReport { step: StepKind::IdentityTransform, seconds },
                    )
                },
                Event::Compressed { artifact, seconds } => {
                    &&& final(self).phase is StoringCertificate
                    &&& final(self).transformed == old(self).transformed
                    &&& final(self).certificate == Some(
                        FinalCertificate { artifact, claim: old(self).transformed->0.claim },
                    )
                    &&& final(self).reports@ == old(self).reports@.push(
                        StageReport { step: StepKind::Compress, seconds },
                    )
                },
                Event::VerifyOk => {
                    &&& (old(self).phase is CheckingProved ==> final(self).phase is Lifting
                        && final(self).pending == old(self).pending)
                    &&& (old(self).phase is CheckingLifted ==> {
                        &&& final(self).phase is StoringLifted
                        &&& final(self).lifted@ == old(self).lifted@.push(
                            RecursiveReceipt {
                                artifact: old(self).pending->0,
                                stage: ReceiptStage::Succinct,
                                claim: ClaimSpan {
                                    start: old(self).cursor,
                                    end: (old(self).cursor + 1) as usize,
                                },
                            },
                        )
                        &&& final(self).pending is None
                    })
                    &&& (old(self).phase is CheckingJoined ==> {
                        &&& final(self).joiner is Some
                        &&& final(self).the_joiner().inv()
                        &&& joiner_step(
                            old(self).the_joiner(),
                            final(self).the_joiner(),
                            old(self).pending->0,
                        )
                        &&& (final(self).the_joiner().done() <==> final(self).phase
                            is StoringJoined)
                        &&& (!final(self).the_joiner().done() <==> final(self).phase is Joining)
                        &&& final(self).pending is None
                    })
                    &&& (old(self).phase is CheckingTransformed ==> {
                        &&& final(self).phase is StoringTransformed
                        &&& final(self).joined == old(self).joined
                        &&& final(self).transformed == Some(
                            RecursiveReceipt {
                                artifact: old(self).pending->0,
                                stage: ReceiptStage::TargetField,
                                claim: old(self).joined->0.claim,
                            },
                        )
                        &&& final(self).pending is None
                    })
                },
                Event::VerifyFailed => final(self).phase is Aborted && final(self).failure
                    == Some(ErrorKind::Verification) && final(self).failed_during == Some(
                    old(self).phase,
                ),
                Event::Persisted => {
                    &&& (old(self).phase is StoringLifted ==> {
                        &&& final(self).cursor == old(self).cursor + 1
                        &&& (old(self).cursor + 1 < old(self).segments@.len() ==> final(self).phase is Proving)
                        &&& (old(self).cursor + 1 == old(self).segments@.len() ==> {
                            &&& final(self).joiner is Some
                            &&& final(self).the_joiner().inv()
                            &&& final(self).the_joiner().inputs@ == old(self).lifted@
                            &&& final(self).the_joiner().rounds == 0
                            &&& (old(self).lifted@.len() == 1 ==> final(self).phase
                                is StoringJoined)
                            &&& (old(self).lifted@.len() > 1 ==> final(self).phase is Joining)
                        })
                    })
                    &&& (old(self).phase is StoringJoined ==> {
                        &&& final(self).phase is Transforming
                        &&& final(self).joined == Some(old(self).the_joiner().level@[0])
                        &&& final(self).joined->0.claim.start == 0
                        &&& final(self).joined->0.claim.end == old(self).segments@.len()
                        &&& old(self).the_joiner().rounds == reduction_rounds(
                            old(self).the_joiner().inputs@.len() as nat,
                        )
                        &&& final(self).joiner is None
                    })
                    &&& (old(self).phase is StoringTransformed ==> {
                        &&& final(self).phase is Compressing
                        &&& final(self).transformed == old(self).transformed
                        &&& final(self).joined == old(self).joined
                    })
                    &&& (old(self).phase is StoringCertificate ==> final(self).phase is Complete
                        && final(self).certificate == old(self).certificate)
                },
                Event::PersistFailed => final(self).phase is Aborted && final(self).failure
                    == Some(ErrorKind::Persistence) && final(self).failed_during == Some(
                    old(self).phase,
                ),
                Event::BackendFailed => final(self).phase is Aborted && final(self).failure
                    == Some(ErrorKind::Backend) && final(self).failed_during == Some(
                    old(self).phase,
                ),
            },
    {
        if self.phase == Phase::Complete || self.phase == Phase::Aborted {
            return false;
        }
        match e {
            Event::SegmentsReady { segments } => {
                if self.phase != Phase::Segmenting {
                    return false;
                }
                if segments.len() == 0 {
                    self.failure = Some(ErrorKind::EmptyInput);
                    self.failed_during = Some(self.phase);
                    self.phase = Phase::Aborted;
                } else {
                    self.segments = segments;
                    self.cursor = 0;
                    self.phase = Phase::Proving;
                }
                true
            },
            Event::Proved { artifact, seconds } => {
                if self.phase != Phase::Proving {
                    return false;
                }
                self.pending = Some(artifact);
                self.reports.push(StageReport { step: StepKind::Prove, seconds });
                self.phase = Phase::CheckingProved;
                true
            },
            Event::Lifted { artifact, seconds } => {
                if self.phase != Phase::Lifting {
                    return false;
                }
                self.pending = Some(artifact);
                self.reports.push(StageReport { step: StepKind::Lift, seconds });
                self.phase = Phase::CheckingLifted;
                true
            },
            Event::Joined { artifact, seconds } => {
                if self.phase != Phase::Joining {
                    return false;
                }
                self.pending = Some(artifact);
                self.reports.push(StageReport { step: StepKind::Join, seconds });
                self.phase = Phase::CheckingJoined;
                true
            },
            Event::Transformed { artifact, seconds } => {
                if self.phase != Phase::Transforming {
                    return false;
                }
                self.pending = Some(artifact);
                self.reports.push(StageReport { step: StepKind::IdentityTransform, seconds });
                self.phase = Phase::CheckingTransformed;
                true
            },
            Event::Compressed { artifact, seconds } => {
                if self.phase != Phase::Compressing {
                    return false;
                }
                let claim = match &self.transformed {
                    Some(t) => t.claim,
                    None => vstd::pervasive::unreached(),
                };
                self.certificate = Some(FinalCertificate { artifact, claim });
                self.reports.push(StageReport { step: StepKind::Compress, seconds });
                self.phase = Phase::StoringCertificate;
                true
            },
            Event::VerifyOk => {
                match self.phase {
                    Phase::CheckingProved => {
                        self.phase = Phase::Lifting;
                        true
                    },
                    Phase::CheckingLifted => {
                        let art = match self.pending.take() {
                            Some(a) => a,
                            None => vstd::pervasive::unreached(),
                        };
                        let total = self.segments.len();
                        let start = self.cursor;
                        proof {
                            assert(start < total);
                        }
                        self.lifted.push(
                            RecursiveReceipt {
                                artifact: art,
                                stage: ReceiptStage::Succinct,
                                claim: ClaimSpan { start, end: start + 1 },
                            },
                        );
                        self.phase = Phase::StoringLifted;
                        true
                    },
                    Phase::CheckingJoined => {
                        let art = match self.pending.take() {
                            Some(a) => a,
                            None => vstd::pervasive::unreached(),
                        };
                        match &mut self.joiner {
                            Some(j) => {
                                j.apply_join(art);
                                if j.is_done() {
                                    self.phase = Phase::StoringJoined;
                                } else {
                                    self.phase = Phase::Joining;
                                }
                            },
                            None => {
                                proof {
                                    assert(false);
                                }
                            },
                        }
                        true
                    },
                    Phase::CheckingTransformed => {
                        let art = match self.pending.take() {
                            Some(a) => a,
                            None => vstd::pervasive::unreached(),
                        };
                        let claim = match &self.joined {
                            Some(r) => r.claim,
                            None => vstd::pervasive::unreached(),
                        };
                        self.transformed = Some(
                            RecursiveReceipt {
                                artifact: art,
                                stage: ReceiptStage::TargetField,
                                claim,
                            },
                        );
                        self.phase = Phase::StoringTransformed;
                        true
                    },
                    _ => false,
                }
            },
            Event::VerifyFailed => {
                match self.phase {
                    Phase::CheckingProved | Phase::CheckingLifted | Phase::CheckingJoined
                    | Phase::CheckingTransformed => {
                        self.failure = Some(ErrorKind::Verification);
                        self.failed_during = Some(self.phase);
                        self.phase = Phase::Aborted;
                        true
                    },
                    _ => false,
                }
            },
            Event::Persisted => {
                match self.phase {
                    Phase::StoringLifted => {
                        let total = self.segments.len();
                        proof {
                            assert(self.cursor < total);
                        }
                        self.cursor = self.cursor + 1;
                        if self.cursor < self.segments.len() {
                            self.phase = Phase::Proving;
                        } else {
                            let mut taken: Vec<RecursiveReceipt> = Vec::new();
                            std::mem::swap(&mut self.lifted, &mut taken);
                            proof {
                                assert forall|i: int, k: int|
                                    0 <= i && i + 1 == k && k < taken@.len() implies (
                                #[trigger] taken@[i]).claim.end == (
                                #[trigger] taken@[k]).claim.start by {}
                                assert(valid_inputs(taken@));
                            }
                            match Joiner::new(taken) {
                                Ok(j) => {
                                    let done = j.is_done();
                                    self.joiner = Some(j);
                                    if done {
                                        self.phase = Phase::StoringJoined;
                                    } else {
                                        self.phase = Phase::Joining;
                                    }
                                },
                                Err(_) => {
                                    proof {
                                        assert(false);
                                    }
                                },
                            }
                        }
                        true
                    },
                    Phase::StoringJoined => {
                        let taken = match self.joiner.take() {
                            Some(j) => j,
                            None => vstd::pervasive::unreached(),
                        };
                        let r = taken.into_result();
                        self.joined = Some(r);
                        self.phase = Phase::Transforming;
                        true
                    },
                    Phase::StoringTransformed => {
                        self.phase = Phase::Compressing;
                        true
                    },
                    Phase::StoringCertificate => {
                        self.phase = Phase::Complete;
                        true
                    },
                    _ => false,
                }
            },
            Event::PersistFailed => {
                match self.phase {
                    Phase::StoringLifted | Phase::StoringJoined | Phase::StoringTransformed
                    | Phase::StoringCertificate => {
                        self.failure = Some(ErrorKind::Persistence);
                        self.failed_during = Some(self.phase);
                        self.phase = Phase::Aborted;
                        true
                    },
                    _ => false,
                }
            },
            Event::BackendFailed => {
                match self.phase {
                    Phase::Segmenting | Phase::Proving | Phase::Lifting | Phase::Joining
                    | Phase::Transforming | Phase::Compressing => {
                        self.failure = Some(ErrorKind::Backend);
                        self.failed_during = Some(self.phase);
                        self.phase = Phase::Aborted;
                        true
                    },
                    _ => false,
                }
            },
        }
    }
}

/// Law: once a run is complete or aborted, the orchestrator directs no
/// further operation — in particular, a verification failure at any stage
/// halts the pipeline before any later stage's operation is issued.
pub proof fn lemma_halted_run_commands_nothing(p: Pipeline)
    requires
        p.phase is Complete || p.phase is Aborted,
    ensures
        p.spec_command() is Halt,
{
}

} // verus!
