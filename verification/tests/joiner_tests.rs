use proof_pipeline::artifact::Artifact;
use proof_pipeline::errors::ErrorKind;
use proof_pipeline::joiner::Joiner;
use proof_pipeline::receipt::{ClaimSpan, ReceiptStage, RecursiveReceipt};

fn lifted(i: usize) -> RecursiveReceipt {
    RecursiveReceipt {
        artifact: Artifact::Inline(vec![i as u8]),
        stage: ReceiptStage::Succinct,
        claim: ClaimSpan { start: i, end: i + 1 },
    }
}

fn inputs(n: usize) -> Vec<RecursiveReceipt> {
    (0..n).map(lifted).collect()
}

/// Runs the reduction to completion, handing back synthetic joined artifacts,
/// and records the pair positions in the order they were requested.
fn reduce(n: usize) -> (RecursiveReceipt, usize, Vec<(usize, usize)>) {
    let mut joiner = Joiner::new(inputs(n)).expect("valid inputs");
    let mut pairs = Vec::new();
    let mut tag = 100u8;
    while let Some((l, r)) = joiner.pending_pair() {
        pairs.push((l, r));
        joiner.apply_join(Artifact::Inline(vec![tag]));
        tag += 1;
    }
    let rounds = joiner.rounds;
    (joiner.into_result(), rounds, pairs)
}

#[test]
fn one_receipt_in_ceil_log2_rounds() {
    // N = 1 -> 0 rounds, 2 -> 1, 3 -> 2, 5 -> 3, 8 -> 3, 9 -> 4.
    for (n, expected_rounds) in [(1usize, 0usize), (2, 1), (3, 2), (5, 3), (8, 3), (9, 4)] {
        let (result, rounds, _) = reduce(n);
        assert_eq!(rounds, expected_rounds, "n = {n}");
        assert_eq!(result.claim, ClaimSpan { start: 0, end: n }, "n = {n}");
        assert_eq!(result.stage, ReceiptStage::Succinct);
    }
}

#[test]
fn single_input_returned_unchanged() {
    let (result, rounds, pairs) = reduce(1);
    assert_eq!(rounds, 0);
    assert!(pairs.is_empty());
    assert_eq!(result, lifted(0));
}

#[test]
fn joins_only_adjacent_positions() {
    let (_, _, pairs) = reduce(4);
    for (l, r) in &pairs {
        assert_eq!(*r, *l + 1);
    }
    assert_eq!(pairs, vec![(0, 1), (2, 3), (0, 1)]);
}

#[test]
fn five_receipts_round_sizes_and_carry() {
    let mut joiner = Joiner::new(inputs(5)).expect("valid inputs");
    assert_eq!(joiner.level.len(), 5);

    // Round 1: pairs (0,1) and (2,3) join; index 4 is the carry.
    assert_eq!(joiner.pending_pair(), Some((0, 1)));
    joiner.apply_join(Artifact::Inline(vec![10]));
    assert_eq!(joiner.pending_pair(), Some((2, 3)));
    joiner.apply_join(Artifact::Inline(vec![11]));

    // Round 1 closed: 5 -> 3, the carried element unmodified at the end.
    assert_eq!(joiner.rounds, 1);
    assert_eq!(joiner.level.len(), 3);
    assert_eq!(joiner.level[2], lifted(4));

    // Next round: 3 -> 2; the pair joins and the odd element carries again,
    // still unmodified, still at the terminal position.
    assert_eq!(joiner.pending_pair(), Some((0, 1)));
    joiner.apply_join(Artifact::Inline(vec![12]));
    assert_eq!(joiner.rounds, 2);
    assert_eq!(joiner.level.len(), 2);
    assert_eq!(joiner.level[1], lifted(4));

    // Final round: 2 -> 1; the twice-carried element is joined at last.
    assert_eq!(joiner.pending_pair(), Some((0, 1)));
    joiner.apply_join(Artifact::Inline(vec![13]));
    assert_eq!(joiner.rounds, 3);
    assert!(joiner.is_done());
    let result = joiner.into_result();
    assert_eq!(result.claim, ClaimSpan { start: 0, end: 5 });
    assert_eq!(result.artifact, Artifact::Inline(vec![13]));
}

#[test]
fn empty_input_rejected() {
    match Joiner::new(Vec::new()) {
        Err(e) => assert_eq!(e, ErrorKind::EmptyInput),
        Ok(_) => panic!("empty input accepted"),
    }
}

#[test]
fn non_contiguous_claims_rejected() {
    // Reordered lifted receipts: claims no longer compose left to right.
    let rs = vec![lifted(1), lifted(0), lifted(2)];
    match Joiner::new(rs) {
        Err(e) => assert_eq!(e, ErrorKind::ClaimMismatch),
        Ok(_) => panic!("non-contiguous claims accepted"),
    }
}

#[test]
fn gapped_claims_rejected() {
    let rs = vec![lifted(0), lifted(2)];
    match Joiner::new(rs) {
        Err(e) => assert_eq!(e, ErrorKind::ClaimMismatch),
        Ok(_) => panic!("gapped claims accepted"),
    }
}

#[test]
fn mixed_stages_rejected() {
    let mut rs = vec![lifted(0), lifted(1)];
    rs[1].stage = ReceiptStage::TargetField;
    match Joiner::new(rs) {
        Err(e) => assert_eq!(e, ErrorKind::StageMismatch),
        Ok(_) => panic!("mixed stages accepted"),
    }
}

#[test]
fn ill_formed_claim_rejected() {
    let mut rs = vec![lifted(0)];
    rs[0].claim = ClaimSpan { start: 3, end: 3 };
    match Joiner::new(rs) {
        Err(e) => assert_eq!(e, ErrorKind::ClaimMismatch),
        Ok(_) => panic!("empty claim accepted"),
    }
}

#[test]
fn joined_claim_is_union_of_pair() {
    let mut joiner = Joiner::new(inputs(2)).expect("valid inputs");
    joiner.apply_join(Artifact::Inline(vec![42]));
    let result = joiner.into_result();
    assert_eq!(result.claim, ClaimSpan { start: 0, end: 2 });
    assert_eq!(result.artifact, Artifact::Inline(vec![42]));
    assert_eq!(result.stage, ReceiptStage::Succinct);
}
