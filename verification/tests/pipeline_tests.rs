use proof_pipeline::artifact::Artifact;
use proof_pipeline::digest::Digest;
use proof_pipeline::errors::ErrorKind;
use proof_pipeline::params::SuiteRegistry;
use proof_pipeline::pipeline::{Command, Event, Phase, Pipeline, PipelineConfig, StepKind};
use proof_pipeline::receipt::ClaimSpan;

fn config() -> PipelineConfig {
    PipelineConfig {
        po2_limit: 20,
        succinct_control_ids: vec![Digest::new([1, 2, 3, 4, 5, 6, 7, 8])],
        target_field_control_ids: vec![Digest::new([8, 7, 6, 5, 4, 3, 2, 1])],
        target_field_inner_root: None,
        registry: SuiteRegistry::with_all_suites(),
    }
}

/// A short name for each command, recording backend call order.
fn name(c: &Command) -> &'static str {
    match c {
        Command::RunSegmenter { .. } => "segment",
        Command::ProveSegment { .. } => "prove",
        Command::VerifyProved => "verify",
        Command::Lift => "lift",
        Command::VerifyReceipt { .. } => "verify",
        Command::PersistLifted { .. } => "persist",
        Command::Join { .. } => "join",
        Command::PersistJoined => "persist",
        Command::IdentityTransform => "transform",
        Command::PersistTransformed => "persist",
        Command::Compress => "compress",
        Command::PersistCertificate => "persist",
        Command::Halt => "halt",
    }
}

/// Drives the run against a mock backend that answers every command, failing
/// the integrity check of the `fail_nth_verify`-th verification if given.
/// Records the commands issued, in order.
fn drive(p: &mut Pipeline, segments: usize, fail_nth_verify: Option<usize>) -> Vec<&'static str> {
    let mut calls = Vec::new();
    let mut verifies = 0usize;
    let mut tag = 0u8;
    loop {
        let c = p.command();
        calls.push(name(&c));
        let mut artifact = || {
            tag = tag.wrapping_add(1);
            Artifact::Inline(vec![tag])
        };
        let accepted = match c {
            Command::Halt => break,
            Command::RunSegmenter { .. } => p.apply(Event::SegmentsReady {
                segments: (0..segments).map(|i| Artifact::Inline(vec![i as u8])).collect(),
            }),
            Command::ProveSegment { .. } => p.apply(Event::Proved {
                artifact: artifact(),
                seconds: 2,
            }),
            Command::VerifyProved | Command::VerifyReceipt { .. } => {
                verifies += 1;
                if fail_nth_verify == Some(verifies) {
                    p.apply(Event::VerifyFailed)
                } else {
                    p.apply(Event::VerifyOk)
                }
            }
            Command::Lift => p.apply(Event::Lifted {
                artifact: artifact(),
                seconds: 3,
            }),
            Command::Join { left, right } => {
                assert_eq!(right, left + 1, "join directed at non-adjacent positions");
                p.apply(Event::Joined {
                    artifact: artifact(),
                    seconds: 5,
                })
            }
            Command::IdentityTransform => p.apply(Event::Transformed {
                artifact: artifact(),
                seconds: 7,
            }),
            Command::Compress => p.apply(Event::Compressed {
                artifact: artifact(),
                seconds: 11,
            }),
            Command::PersistLifted { .. }
            | Command::PersistJoined
            | Command::PersistTransformed
            | Command::PersistCertificate => p.apply(Event::Persisted),
        };
        assert!(accepted, "orchestrator refused an answer to its own command");
    }
    calls
}

#[test]
fn five_segments_end_to_end() {
    let mut p = Pipeline::new(config()).unwrap();
    let calls = drive(&mut p, 5, None);
    assert_eq!(p.phase, Phase::Complete);
    let cert = p.certificate.as_ref().expect("certificate");
    assert_eq!(cert.claim, ClaimSpan { start: 0, end: 5 });
    // 5 proves, 5 lifts, 4 joins (ceil-log2 tree over 5), 1 transform, 1 compress.
    assert_eq!(calls.iter().filter(|c| **c == "prove").count(), 5);
    assert_eq!(calls.iter().filter(|c| **c == "lift").count(), 5);
    assert_eq!(calls.iter().filter(|c| **c == "join").count(), 4);
    assert_eq!(calls.iter().filter(|c| **c == "transform").count(), 1);
    assert_eq!(calls.iter().filter(|c| **c == "compress").count(), 1);
    // Every backend output was verified before the next stage: one check per
    // prove, lift and join, one for the transformed receipt.
    assert_eq!(calls.iter().filter(|c| **c == "verify").count(), 15);
    // Every stage output was persisted: 5 lifted receipts, the joined
    // receipt, the transformed receipt and the certificate.
    assert_eq!(calls.iter().filter(|c| **c == "persist").count(), 8);
    // Per-step reports, in order.
    assert_eq!(p.reports.len(), 16);
    assert_eq!(p.reports[0].step, StepKind::Prove);
    assert_eq!(p.reports[0].seconds, 2);
    assert_eq!(p.reports[15].step, StepKind::Compress);
}

#[test]
fn verification_failure_halts_before_next_stage() {
    let mut p = Pipeline::new(config()).unwrap();
    // Verification 11 is the first joined receipt's integrity check
    // (5 segments give 10 prove/lift checks first).
    let calls = drive(&mut p, 5, Some(11));
    assert_eq!(p.phase, Phase::Aborted);
    assert_eq!(p.failure, Some(ErrorKind::Verification));
    assert_eq!(p.failed_during, Some(Phase::CheckingJoined));
    assert!(p.certificate.is_none());
    // The pipeline halted inside the join tree: no later stage's operation
    // was ever issued.
    assert_eq!(calls.iter().filter(|c| **c == "join").count(), 1);
    assert_eq!(calls.iter().filter(|c| **c == "transform").count(), 0);
    assert_eq!(calls.iter().filter(|c| **c == "compress").count(), 0);
    assert_eq!(*calls.last().unwrap(), "halt");
    // Once aborted, nothing resurrects the run.
    assert!(!p.apply(Event::VerifyOk));
    assert_eq!(p.phase, Phase::Aborted);
    assert!(matches!(p.command(), Command::Halt));
}

#[test]
fn transform_failure_aborts_before_compress() {
    let mut p = Pipeline::new(config()).unwrap();
    // With one segment nothing is joined: checks are prove, lift, then the
    // transformed receipt. Fail the transformed receipt's check.
    let calls = drive(&mut p, 1, Some(3));
    assert_eq!(p.phase, Phase::Aborted);
    assert_eq!(p.failure, Some(ErrorKind::Verification));
    assert_eq!(p.failed_during, Some(Phase::CheckingTransformed));
    assert_eq!(calls.iter().filter(|c| **c == "transform").count(), 1);
    assert_eq!(calls.iter().filter(|c| **c == "compress").count(), 0);
}

#[test]
fn single_segment_end_to_end() {
    let mut p = Pipeline::new(config()).unwrap();
    let calls = drive(&mut p, 1, None);
    assert_eq!(p.phase, Phase::Complete);
    assert_eq!(calls.iter().filter(|c| **c == "join").count(), 0);
    let cert = p.certificate.as_ref().expect("certificate");
    assert_eq!(cert.claim, ClaimSpan { start: 0, end: 1 });
}

#[test]
fn empty_segment_sequence_aborts() {
    let mut p = Pipeline::new(config()).unwrap();
    assert!(p.apply(Event::SegmentsReady { segments: Vec::new() }));
    assert_eq!(p.phase, Phase::Aborted);
    assert_eq!(p.failure, Some(ErrorKind::EmptyInput));
}

#[test]
fn backend_fault_aborts() {
    let mut p = Pipeline::new(config()).unwrap();
    assert!(p.apply(Event::SegmentsReady {
        segments: vec![Artifact::Inline(vec![0])],
    }));
    assert!(p.apply(Event::BackendFailed));
    assert_eq!(p.phase, Phase::Aborted);
    assert_eq!(p.failure, Some(ErrorKind::Backend));
}

#[test]
fn persistence_failure_aborts() {
    let mut p = Pipeline::new(config()).unwrap();
    assert!(p.apply(Event::SegmentsReady {
        segments: vec![Artifact::Inline(vec![0])],
    }));
    assert!(p.apply(Event::Proved { artifact: Artifact::Inline(vec![1]), seconds: 1 }));
    assert!(p.apply(Event::VerifyOk));
    assert!(p.apply(Event::Lifted { artifact: Artifact::Inline(vec![2]), seconds: 1 }));
    assert!(p.apply(Event::VerifyOk));
    assert!(p.apply(Event::PersistFailed));
    assert_eq!(p.phase, Phase::Aborted);
    assert_eq!(p.failure, Some(ErrorKind::Persistence));
}

#[test]
fn mismatched_event_is_refused_unchanged() {
    let mut p = Pipeline::new(config()).unwrap();
    assert!(!p.apply(Event::VerifyOk));
    assert_eq!(p.phase, Phase::Segmenting);
}

#[test]
fn bad_registry_is_a_configuration_error() {
    let mut c = config();
    c.registry.poseidon254 = false;
    match Pipeline::new(c) {
        Err(e) => assert_eq!(e, ErrorKind::Configuration),
        Ok(_) => panic!("missing suite accepted"),
    }
}

#[test]
fn empty_control_ids_are_a_parameter_build_error() {
    let mut c = config();
    c.succinct_control_ids = Vec::new();
    match Pipeline::new(c) {
        Err(e) => assert_eq!(e, ErrorKind::ParameterBuild),
        Ok(_) => panic!("empty control identifier set accepted"),
    }
}
