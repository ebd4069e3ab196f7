use sp1_prover_utils::components::{DefaultProverComponents, SP1ProverComponents};
use sp1_prover_utils::digest::{recursion_public_values_digest, root_public_values_digest};
use sp1_prover_utils::field::{HashConfig, BABYBEAR_P};
use sp1_prover_utils::pipeline::{Pipeline, PipelineError, PipelineStage, StageKind};
use sp1_prover_utils::public_values::{RecursionPublicValues, RootPublicValues};
use sp1_prover_utils::words::Word;

fn pv(seed: u32) -> RecursionPublicValues {
    let mut pv = RecursionPublicValues {
        committed_value_digest: [Word([seed, seed + 1, seed + 2, seed + 3]); 8],
        deferred_proofs_digest: [0; 8],
        start_pc: seed,
        next_pc: seed + 4,
        start_shard: seed,
        next_shard: seed + 1,
        exit_code: 0,
        is_complete: 0,
        sp1_vk_digest: [42; 8],
        digest: [0; 8],
    };
    pv.digest = recursion_public_values_digest(&HashConfig::new(), &pv);
    pv
}

fn corrupt(mut p: RecursionPublicValues, i: usize) -> RecursionPublicValues {
    p.digest[i] = (p.digest[i] + 1) % BABYBEAR_P;
    p
}

fn root_pv(inner: RecursionPublicValues) -> RootPublicValues {
    let mut root = RootPublicValues::new(inner);
    root.inner.digest = root_public_values_digest(&HashConfig::new(), &root);
    root
}

#[test]
fn four_segments_compress_twice_and_reach_root() {
    let cfg = HashConfig::new();
    let base: Vec<RecursionPublicValues> = (0..4).map(|i| pv(10 * i)).collect();
    let mut p = Pipeline::start(&cfg, base).unwrap();
    assert_eq!(p.stage(), PipelineStage::BaseProven);
    assert_eq!(p.compress_round(&cfg, vec![pv(100), pv(101)]), Ok(()));
    assert_eq!(p.stage(), PipelineStage::Compressing);
    assert_eq!(p.compress_round(&cfg, vec![pv(200)]), Ok(()));
    assert_eq!(p.rounds(), 2);
    assert_eq!(p.pending().len(), 1);
    let shrunk = pv(300);
    assert_eq!(p.shrink(&cfg, shrunk), Ok(()));
    assert_eq!(p.stage(), PipelineStage::Shrunk);
    assert_eq!(p.root(&cfg, &root_pv(shrunk)), Ok(()));
    assert_eq!(p.stage(), PipelineStage::Rooted);
}

#[test]
fn bad_digest_in_a_compression_round_aborts() {
    let cfg = HashConfig::new();
    let base: Vec<RecursionPublicValues> = (0..4).map(|i| pv(10 * i)).collect();
    let mut p = Pipeline::start(&cfg, base).unwrap();
    let bad = corrupt(pv(101), 5);
    let r = p.compress_round(&cfg, vec![pv(100), bad]);
    match r {
        Err(PipelineError::DigestMismatch { stage, round, index, mismatch }) => {
            assert_eq!(stage, StageKind::Compress);
            assert_eq!(round, 1);
            assert_eq!(index, 1);
            assert_eq!(mismatch.index, 5);
        }
        other => panic!("unexpected {:?}", other),
    }
    assert_eq!(p.stage(), PipelineStage::Aborted);
    assert_eq!(p.compress_round(&cfg, vec![pv(200)]), Err(PipelineError::OutOfOrder));
    assert_eq!(p.shrink(&cfg, pv(300)), Err(PipelineError::OutOfOrder));
    assert_eq!(p.root(&cfg, &root_pv(pv(300))), Err(PipelineError::OutOfOrder));
    assert_eq!(p.stage(), PipelineStage::Aborted);
}

#[test]
fn bad_digest_in_the_second_round_aborts() {
    let cfg = HashConfig::new();
    let base: Vec<RecursionPublicValues> = (0..4).map(|i| pv(10 * i)).collect();
    let mut p = Pipeline::start(&cfg, base).unwrap();
    assert_eq!(p.compress_round(&cfg, vec![pv(100), pv(101)]), Ok(()));
    let r = p.compress_round(&cfg, vec![corrupt(pv(200), 0)]);
    assert!(matches!(
        r,
        Err(PipelineError::DigestMismatch { stage: StageKind::Compress, round: 2, index: 0, .. })
    ));
    assert_eq!(p.stage(), PipelineStage::Aborted);
}

#[test]
fn start_needs_valid_base_proofs() {
    let cfg = HashConfig::new();
    assert!(matches!(Pipeline::start(&cfg, vec![]), Err(PipelineError::NoBaseProofs)));
    let r = Pipeline::start(&cfg, vec![pv(1), pv(2), corrupt(pv(3), 2)]);
    assert!(matches!(
        r,
        Err(PipelineError::DigestMismatch { stage: StageKind::Core, round: 0, index: 2, .. })
    ));
}

#[test]
fn round_with_wrong_count_aborts() {
    let cfg = HashConfig::new();
    let base: Vec<RecursionPublicValues> = (0..3).map(pv).collect();
    let mut p = Pipeline::start(&cfg, base).unwrap();
    assert_eq!(
        p.compress_round(&cfg, vec![pv(100)]),
        Err(PipelineError::ProofCount { expected: 2, actual: 1 })
    );
    assert_eq!(p.stage(), PipelineStage::Aborted);
}

#[test]
fn shrink_needs_a_single_compressed_proof() {
    let cfg = HashConfig::new();
    let mut p = Pipeline::start(&cfg, vec![pv(1), pv(2)]).unwrap();
    assert_eq!(p.shrink(&cfg, pv(3)), Err(PipelineError::OutOfOrder));
    assert_eq!(p.stage(), PipelineStage::Aborted);
    let base: Vec<RecursionPublicValues> = (0..4).map(pv).collect();
    let mut p2 = Pipeline::start(&cfg, base).unwrap();
    assert_eq!(p2.compress_round(&cfg, vec![pv(10), pv(11)]), Ok(()));
    assert_eq!(p2.shrink(&cfg, pv(3)), Err(PipelineError::ProofCount { expected: 1, actual: 2 }));
    let mut q = Pipeline::start(&cfg, vec![pv(1)]).unwrap();
    assert_eq!(q.compress_round(&cfg, vec![]), Err(PipelineError::ProofCount { expected: 1, actual: 0 }));
    let mut s = Pipeline::start(&cfg, vec![pv(1)]).unwrap();
    assert_eq!(s.root(&cfg, &root_pv(pv(1))), Err(PipelineError::OutOfOrder));
}

#[test]
fn lone_base_proof_goes_through_one_round() {
    let cfg = HashConfig::new();
    let mut t = Pipeline::start(&cfg, vec![pv(1)]).unwrap();
    assert_eq!(t.compress_round(&cfg, vec![pv(5)]), Ok(()));
    assert_eq!(t.rounds(), 1);
    assert_eq!(t.compress_round(&cfg, vec![pv(6)]), Err(PipelineError::OutOfOrder));
    let mut u = Pipeline::start(&cfg, vec![pv(1)]).unwrap();
    assert_eq!(u.compress_round(&cfg, vec![pv(5)]), Ok(()));
    assert_eq!(u.shrink(&cfg, pv(2)), Ok(()));
    assert_eq!(u.root(&cfg, &root_pv(pv(2))), Ok(()));
    assert_eq!(u.stage(), PipelineStage::Rooted);
}

#[test]
fn bad_shrink_or_root_digest_aborts() {
    let cfg = HashConfig::new();
    let mut p = Pipeline::start(&cfg, vec![pv(1)]).unwrap();
    assert_eq!(p.compress_round(&cfg, vec![pv(5)]), Ok(()));
    assert!(matches!(
        p.shrink(&cfg, corrupt(pv(2), 3)),
        Err(PipelineError::DigestMismatch { stage: StageKind::Shrink, round: 1, index: 0, .. })
    ));
    let mut q = Pipeline::start(&cfg, vec![pv(1)]).unwrap();
    assert_eq!(q.compress_round(&cfg, vec![pv(5)]), Ok(()));
    assert_eq!(q.shrink(&cfg, pv(2)), Ok(()));
    let mut root = root_pv(pv(2));
    root.inner.digest[1] = (root.inner.digest[1] + 1) % BABYBEAR_P;
    assert!(matches!(
        q.root(&cfg, &root),
        Err(PipelineError::DigestMismatch { stage: StageKind::Root, index: 0, .. })
    ));
    assert_eq!(q.stage(), PipelineStage::Aborted);
}

fn uses_components<C: SP1ProverComponents>() -> bool {
    true
}

#[test]
fn default_components_bind_every_stage() {
    assert!(uses_components::<DefaultProverComponents>());
}
