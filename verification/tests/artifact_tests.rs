use proof_pipeline::artifact::Artifact;
use proof_pipeline::digest::Digest;
use proof_pipeline::errors::ErrorKind;

#[test]
fn inline_artifact_materializes_to_its_own_bytes() {
    let a = Artifact::inline(vec![1, 2, 3]);
    assert!(a.is_inline());
    assert_eq!(a.inline_bytes(), Some(&vec![1, 2, 3]));
    assert_eq!(a.location(), None);
    assert_eq!(a.materialize(None), Ok(vec![1, 2, 3]));
}

#[test]
fn referenced_artifact_materializes_from_fetched_bytes() {
    let a = Artifact::referenced(b"segs/lifted/0.sr".to_vec());
    assert!(!a.is_inline());
    assert_eq!(a.inline_bytes(), None);
    assert_eq!(a.location(), Some(&b"segs/lifted/0.sr".to_vec()));
    assert_eq!(a.clone().materialize(Some(vec![9, 9])), Ok(vec![9, 9]));
    // Without the stored bytes the referenced artifact comes back intact.
    assert_eq!(a.clone().materialize(None), Err(a));
}

#[test]
fn digest_words_round_trip() {
    let d = Digest::new([1, 2, 3, 4, 5, 6, 7, 8]);
    assert_eq!(*d.as_words(), [1, 2, 3, 4, 5, 6, 7, 8]);
}

#[test]
fn error_kinds_have_distinct_names() {
    let kinds = [
        ErrorKind::Configuration,
        ErrorKind::ParameterBuild,
        ErrorKind::Backend,
        ErrorKind::Verification,
        ErrorKind::EmptyInput,
        ErrorKind::ClaimMismatch,
        ErrorKind::StageMismatch,
        ErrorKind::Persistence,
    ];
    for (i, a) in kinds.iter().enumerate() {
        for (j, b) in kinds.iter().enumerate() {
            assert_eq!(i == j, a.name() == b.name());
        }
    }
}
