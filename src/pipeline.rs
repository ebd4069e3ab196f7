//! The control contract of proof composition: base proofs are combined
//! round by round, shrunk, and wrapped at the root. The proving work happens
//! outside; each step here receives the public values that the step's proofs
//! emitted and checks their digests before they are kept, so no value is read
//! as input to a later step before it is checked. Any failure aborts the run
//! for good.

use vstd::prelude::*;
use crate::digest::{
    assert_recursion_public_values_valid, assert_root_public_values_valid, check_outcome,
    digests_match, is_first_mismatch, recursion_digest, root_digest, DigestMismatch,
};
use crate::field::HashConfig;
use crate::public_values::{RecursionPublicValues, RootPublicValues};

verus! {

/// Where a run of the pipeline stands.
#[derive(Clone, Copy, Debug, PartialEq, Eq, Structural)]
pub enum PipelineStage {
    /// One proof per execution segment.
    BaseProven,
    /// One or more rounds of pairwise combination done.
    Compressing,
    /// A single proof, reduced in size.
    Shrunk,
    /// The final proof, digest-wrapped.
    Rooted,
    /// A step failed; the run is over and emits no proof.
    Aborted,
}

/// The stage whose public values failed their digest check.
#[derive(Clone, Copy, Debug, PartialEq, Eq, Structural)]
pub enum StageKind {
    Core,
    Compress,
    Shrink,
    Root,
}

/// Why a step of the pipeline failed.
#[derive(Clone, Copy, Debug, PartialEq, Eq)]
pub enum PipelineError {
    /// A run needs at least one base proof.
    NoBaseProofs,
    /// The claimed digest of the `index`-th public values of a step differs
    /// from the recomputed one.
    DigestMismatch { stage: StageKind, round: usize, index: usize, mismatch: DigestMismatch },
    /// The step is not allowed where the run stands.
    OutOfOrder,
    /// A step emitted another number of proofs than the step calls for.
    ProofCount { expected: usize, actual: usize },
}

/// A run of the pipeline, as a mathematical value.
pub struct PipelineModel {
    pub stage: PipelineStage,
    pub pending: Seq<RecursionPublicValues>,
    pub rounds: nat,
}

/// The claimed digest of `p` is its recomputed digest.
pub open spec fn pv_valid(p: RecursionPublicValues) -> bool {
    digests_match(p.digest@, recursion_digest(p))
}

/// The claimed digest of `p` is its recomputed root digest.
pub open spec fn root_valid(p: RootPublicValues) -> bool {
    digests_match(p.inner.digest@, root_digest(p))
}

/// Every one of `s` carries its recomputed digest.
pub open spec fn all_valid(s: Seq<RecursionPublicValues>) -> bool {
    forall|j: int| 0 <= j < s.len() ==> pv_valid(#[trigger] s[j])
}

/// The number of proofs that one round of pairwise combination emits from
/// `n`: a proof left without a partner is carried on.
pub open spec fn combined_count(n: int) -> int {
    (n + 1) / 2
}

/// The run `m`, aborted.
pub open spec fn aborted(m: PipelineModel) -> PipelineModel {
    PipelineModel { stage: PipelineStage::Aborted, ..m }
}

/// A run started on the public values of the base proofs.
pub open spec fn start_model(base: Seq<RecursionPublicValues>) -> PipelineModel {
    PipelineModel {
        stage: if base.len() > 0 && all_valid(base) {
            PipelineStage::BaseProven
        } else {
            PipelineStage::Aborted
        },
        pending: base,
        rounds: 0,
    }
}

/// A round of combination may follow: the run is at the base with a proof
/// or more pending (a lone proof is combined with a placeholder), or
/// compressing with two proofs or more pending.
pub open spec fn can_compress(m: PipelineModel) -> bool {
    ||| m.stage == PipelineStage::BaseProven && m.pending.len() >= 1
    ||| m.stage == PipelineStage::Compressing && m.pending.len() >= 2
}

/// The run after a round of combination that emitted `combined`.
pub open spec fn compress_next(m: PipelineModel, combined: Seq<RecursionPublicValues>) -> PipelineModel {
    if can_compress(m) && combined.len() == combined_count(m.pending.len() as int) && all_valid(combined) {
        PipelineModel { stage: PipelineStage::Compressing, pending: combined, rounds: m.rounds + 1 }
    } else {
        aborted(m)
    }
}

/// Shrinking may follow: the run is compressing.
pub open spec fn can_shrink(m: PipelineModel) -> bool {
    m.stage == PipelineStage::Compressing
}

/// The run after shrinking, with `shrunk` the shrunk proof's public values.
pub open spec fn shrink_next(m: PipelineModel, shrunk: RecursionPublicValues) -> PipelineModel {
    if can_shrink(m) && m.pending.len() == 1 && pv_valid(shrunk) {
        PipelineModel { stage: PipelineStage::Shrunk, pending: seq![shrunk], rounds: m.rounds }
    } else {
        aborted(m)
    }
}

/// The run after wrapping at the root with the public values `root`.
pub open spec fn root_next(m: PipelineModel, root: RootPublicValues) -> PipelineModel {
    if m.stage == PipelineStage::Shrunk && root_valid(root) {
        PipelineModel { stage: PipelineStage::Rooted, ..m }
    } else {
        aborted(m)
    }
}

/// A run driven through the given rounds of combination, in order.
pub open spec fn run_rounds(m: PipelineModel, rounds: Seq<Seq<RecursionPublicValues>>) -> PipelineModel
    decreases rounds.len(),
{
    if rounds.len() == 0 {
        m
    } else {
        run_rounds(compress_next(m, rounds[0]), rounds.drop_first())
    }
}

/// Where a whole run ends: base proofs, rounds of combination, shrinking,
/// and the root.
pub open spec fn run_pipeline(
    base: Seq<RecursionPublicValues>,
    rounds: Seq<Seq<RecursionPublicValues>>,
    shrunk: RecursionPublicValues,
    root: RootPublicValues,
) -> PipelineStage {
    root_next(shrink_next(run_rounds(start_model(base), rounds), shrunk), root).stage
}

/// Further rounds that combine `n` proofs pairwise down to one.
pub open spec fn halving_chain(n: int, rounds: Seq<Seq<RecursionPublicValues>>) -> bool
    decreases rounds.len(),
{
    if rounds.len() == 0 {
        n == 1
    } else {
        n >= 2 && rounds[0].len() == combined_count(n) && halving_chain(
            rounds[0].len() as int,
            rounds.drop_first(),
        )
    }
}

/// Every round emits only public values that carry their recomputed digest.
pub open spec fn all_rounds_valid(rounds: Seq<Seq<RecursionPublicValues>>) -> bool {
    forall|k: int| 0 <= k < rounds.len() ==> all_valid(#[trigger] rounds[k])
}

proof fn lemma_rounds_ok(m: PipelineModel, rounds: Seq<Seq<RecursionPublicValues>>)
    requires
        can_shrink(m),
        halving_chain(m.pending.len() as int, rounds),
        all_rounds_valid(rounds),
    ensures
        can_shrink(run_rounds(m, rounds)),
        run_rounds(m, rounds).pending.len() == 1,
    decreases rounds.len(),
{
    if rounds.len() > 0 {
        let next = compress_next(m, rounds[0]);
        assert(all_valid(rounds[0]));
        assert(all_rounds_valid(rounds.drop_first())) by {
            assert forall|k: int| 0 <= k < rounds.drop_first().len() implies all_valid(#[trigger] rounds.drop_first()[k]) by {
                assert(rounds.drop_first()[k] == rounds[k + 1]);
            }
        }
        lemma_rounds_ok(next, rounds.drop_first());
    }
}

proof fn lemma_aborted_stays(m: PipelineModel, rounds: Seq<Seq<RecursionPublicValues>>)
    requires
        m.stage == PipelineStage::Aborted,
    ensures
        run_rounds(m, rounds).stage == PipelineStage::Aborted,
    decreases rounds.len(),
{
    if rounds.len() > 0 {
        lemma_aborted_stays(compress_next(m, rounds[0]), rounds.drop_first());
    }
}

proof fn lemma_bad_round_aborts(m: PipelineModel, rounds: Seq<Seq<RecursionPublicValues>>, j: int)
    requires
        0 <= j < rounds.len(),
        !all_valid(rounds[j]),
    ensures
        run_rounds(m, rounds).stage == PipelineStage::Aborted,
    decreases rounds.len(),
{
    let next = compress_next(m, rounds[0]);
    if j == 0 {
        assert(next.stage == PipelineStage::Aborted);
        lemma_aborted_stays(next, rounds.drop_first());
    } else {
        assert(rounds.drop_first()[j - 1] == rounds[j]);
        lemma_bad_round_aborts(next, rounds.drop_first(), j - 1);
    }
}

/// A run whose every step emits public values with correctly computed
/// digests, and whose rounds (one at least) combine the base proofs pairwise
/// down to one, ends rooted.
pub proof fn lemma_pipeline_reaches_root(
    base: Seq<RecursionPublicValues>,
    rounds: Seq<Seq<RecursionPublicValues>>,
    shrunk: RecursionPublicValues,
    root: RootPublicValues,
)
    requires
        base.len() >= 1,
        all_valid(base),
        rounds.len() >= 1,
        rounds[0].len() == combined_count(base.len() as int),
        halving_chain(rounds[0].len() as int, rounds.drop_first()),
        all_rounds_valid(rounds),
        pv_valid(shrunk),
        root_valid(root),
    ensures
        run_pipeline(base, rounds, shrunk, root) == PipelineStage::Rooted,
{
    let first = compress_next(start_model(base), rounds[0]);
    assert(all_valid(rounds[0]));
    assert(first.stage == PipelineStage::Compressing);
    assert(all_rounds_valid(rounds.drop_first())) by {
        assert forall|k: int| 0 <= k < rounds.drop_first().len() implies all_valid(#[trigger] rounds.drop_first()[k]) by {
            assert(rounds.drop_first()[k] == rounds[k + 1]);
        }
    }
    lemma_rounds_ok(first, rounds.drop_first());
}

/// A run in which some round of combination emits public values with a bad
/// digest aborts, and never ends rooted.
pub proof fn lemma_bad_digest_aborts(
    base: Seq<RecursionPublicValues>,
    rounds: Seq<Seq<RecursionPublicValues>>,
    shrunk: RecursionPublicValues,
    root: RootPublicValues,
    j: int,
    i: int,
)
    requires
        0 <= j < rounds.len(),
        0 <= i < rounds[j].len(),
        !pv_valid(rounds[j][i]),
    ensures
        run_rounds(start_model(base), rounds.subrange(0, j + 1)).stage == PipelineStage::Aborted,
        run_pipeline(base, rounds, shrunk, root) == PipelineStage::Aborted,
{
    lemma_bad_round_aborts(start_model(base), rounds, j);
    assert(rounds.subrange(0, j + 1)[j] == rounds[j]);
    lemma_bad_round_aborts(start_model(base), rounds.subrange(0, j + 1), j);
}

/// The error that a step reports when the `index`-th of `pvs` is the first
/// with a bad digest.
pub open spec fn reports_first_bad(
    err: PipelineError,
    stage: StageKind,
    round: int,
    pvs: Seq<RecursionPublicValues>,
) -> bool {
    match err {
        PipelineError::DigestMismatch { stage: s, round: r, index, mismatch } => {
            &&& s == stage
            &&& r == round
            &&& index < pvs.len()
            &&& all_valid(pvs.subrange(0, index as int))
            &&& is_first_mismatch(mismatch, pvs[index as int].digest@, recursion_digest(pvs[index as int]))
        },
        _ => false,
    }
}

/// Checks the digests of all of `pvs`, in order, stopping at the first bad one.
fn check_all(config: &HashConfig, pvs: &Vec<RecursionPublicValues>) -> (r: Result<(), (usize, DigestMismatch)>)
    ensures
        r is Ok <==> all_valid(pvs@),
        r matches Err((j, e)) ==> {
            &&& j < pvs@.len()
            &&& all_valid(pvs@.subrange(0, j as int))
            &&& is_first_mismatch(e, pvs@[j as int].digest@, recursion_digest(pvs@[j as int]))
        },
{
    let mut j: usize = 0;
    while j < pvs.len()
        invariant
            j <= pvs@.len(),
            all_valid(pvs@.subrange(0, j as int)),
        decreases pvs@.len() - j,
    {
        match assert_recursion_public_values_valid(config, &pvs[j]) {
            Ok(()) => {},
            Err(e) => {
                return Err((j, e));
            },
        }
        assert(all_valid(pvs@.subrange(0, j + 1))) by {
            assert forall|k: int| 0 <= k < j + 1 implies pv_valid(#[trigger] pvs@.subrange(0, j + 1)[k]) by {
                if k < j {
                    assert(pvs@.subrange(0, j + 1)[k] == pvs@.subrange(0, j as int)[k]);
                }
            }
        }
        j = j + 1;
    }
    assert(pvs@.subrange(0, j as int) =~= pvs@);
    Ok(())
}

/// A run of the pipeline.
pub struct Pipeline {
    stage: PipelineStage,
    pending: Vec<RecursionPublicValues>,
    rounds: usize,
    segments: usize,
}

impl View for Pipeline {
    type V = PipelineModel;

    closed spec fn view(&self) -> PipelineModel {
        PipelineModel { stage: self.stage, pending: self.pending@, rounds: self.rounds as nat }
    }
}

impl Pipeline {
    /// Rounds never outnumber the proofs that they took away, but for the
    /// placeholder round of a lone base proof.
    pub closed spec fn wf(&self) -> bool {
        &&& self.rounds + self.pending@.len() <= self.segments + 1
        &&& self.stage == PipelineStage::BaseProven ==> self.rounds == 0 && self.pending@.len() <= self.segments
    }

    /// Starts a run on the public values of the base proofs, one per
    /// execution segment, checking each digest.
    pub fn start(config: &HashConfig, base: Vec<RecursionPublicValues>) -> (r: Result<Pipeline, PipelineError>)
        ensures
            r is Ok <==> base@.len() > 0 && all_valid(base@),
            r matches Ok(p) ==> p.wf() && p@ == start_model(base@),
            base@.len() == 0 ==> r == Err::<Pipeline, PipelineError>(PipelineError::NoBaseProofs),
            base@.len() > 0 && !all_valid(base@) ==> (r matches Err(e) && reports_first_bad(e, StageKind::Core, 0, base@)),
    {
        if base.len() == 0 {
            return Err(PipelineError::NoBaseProofs);
        }
        match check_all(config, &base) {
            Ok(()) => {},
            Err((index, mismatch)) => {
                return Err(PipelineError::DigestMismatch { stage: StageKind::Core, round: 0, index, mismatch });
            },
        }
        let segments = base.len();
        Ok(Pipeline { stage: PipelineStage::BaseProven, pending: base, rounds: 0, segments })
    }

    /// Where the run stands.
    pub fn stage(&self) -> (r: PipelineStage)
        ensures
            r == self@.stage,
    {
        self.stage
    }

    /// The rounds of combination done so far.
    pub fn rounds(&self) -> (r: usize)
        ensures
            r == self@.rounds,
    {
        self.rounds
    }

    /// The public values that the next step consumes, all of them checked.
    pub fn pending(&self) -> (r: &Vec<RecursionPublicValues>)
        ensures
            r@ == self@.pending,
    {
        &self.pending
    }

    fn abort(&mut self, err: PipelineError) -> (r: Result<(), PipelineError>)
        requires
            old(self).wf(),
        ensures
            final(self).wf(),
            final(self)@ == aborted(old(self)@),
            r == Err::<(), PipelineError>(err),
    {
        self.stage = PipelineStage::Aborted;
        Err(err)
    }

    /// One round of pairwise combination: `combined` holds the public values
    /// of the proofs that the round emitted. Each digest is checked before
    /// they replace the pending values.
    pub fn compress_round(&mut self, config: &HashConfig, combined: Vec<RecursionPublicValues>) -> (r: Result<(), PipelineError>)
        requires
            old(self).wf(),
        ensures
            final(self).wf(),
            final(self)@ == compress_next(old(self)@, combined@),
            r is Ok <==> final(self)@.stage == PipelineStage::Compressing,
            !can_compress(old(self)@) ==> r == Err::<(), PipelineError>(PipelineError::OutOfOrder),
            can_compress(old(self)@) && combined@.len() != combined_count(old(self)@.pending.len() as int)
                ==> r == Err::<(), PipelineError>(PipelineError::ProofCount {
                    expected: combined_count(old(self)@.pending.len() as int) as usize,
                    actual: combined@.len() as usize,
                }),
            can_compress(old(self)@) && combined@.len() == combined_count(old(self)@.pending.len() as int)
                && !all_valid(combined@) ==> (r matches Err(e) && reports_first_bad(
                    e,
                    StageKind::Compress,
                    (old(self)@.rounds + 1) as int,
                    combined@,
                )),
    {
        let can = match self.stage {
            PipelineStage::BaseProven => self.pending.len() >= 1,
            PipelineStage::Compressing => self.pending.len() >= 2,
            _ => false,
        };
        if !can {
            return self.abort(PipelineError::OutOfOrder);
        }
        let expected = self.pending.len() / 2 + self.pending.len() % 2;
        if combined.len() != expected {
            return self.abort(PipelineError::ProofCount { expected, actual: combined.len() });
        }
        match check_all(config, &combined) {
            Ok(()) => {},
            Err((index, mismatch)) => {
                let round = self.rounds + 1;
                return self.abort(PipelineError::DigestMismatch { stage: StageKind::Compress, round, index, mismatch });
            },
        }
        proof {
            let n = self.pending@.len() as int;
            assert(combined@.len() == combined_count(n));
            assert(n >= 2 ==> combined_count(n) + 1 <= n);
            assert(combined_count(n) <= n);
        }
        self.pending = combined;
        self.rounds = self.rounds + 1;
        self.stage = PipelineStage::Compressing;
        Ok(())
    }

    /// Shrinks the single combined proof: `shrunk` holds the public values of
    /// the shrunk proof, whose digest is checked.
    pub fn shrink(&mut self, config: &HashConfig, shrunk: RecursionPublicValues) -> (r: Result<(), PipelineError>)
        requires
            old(self).wf(),
        ensures
            final(self).wf(),
            final(self)@ == shrink_next(old(self)@, shrunk),
            r is Ok <==> final(self)@.stage == PipelineStage::Shrunk,
            !can_shrink(old(self)@) ==> r == Err::<(), PipelineError>(PipelineError::OutOfOrder),
            can_shrink(old(self)@) && old(self)@.pending.len() != 1 ==> r == Err::<(), PipelineError>(
                PipelineError::ProofCount { expected: 1, actual: old(self)@.pending.len() as usize },
            ),
            can_shrink(old(self)@) && old(self)@.pending.len() == 1 && !pv_valid(shrunk) ==> (r matches Err(e)
                && reports_first_bad(e, StageKind::Shrink, old(self)@.rounds as int, seq![shrunk])),
    {
        let can = match self.stage {
            PipelineStage::Compressing => true,
            _ => false,
        };
        if !can {
            return self.abort(PipelineError::OutOfOrder);
        }
        if self.pending.len() != 1 {
            let actual = self.pending.len();
            return self.abort(PipelineError::ProofCount { expected: 1, actual });
        }
        match assert_recursion_public_values_valid(config, &shrunk) {
            Ok(()) => {},
            Err(mismatch) => {
                let round = self.rounds;
                proof {
                    assert(all_valid(seq![shrunk].subrange(0, 0)));
                }
                return self.abort(PipelineError::DigestMismatch { stage: StageKind::Shrink, round, index: 0, mismatch });
            },
        }
        let mut pending: Vec<RecursionPublicValues> = Vec::new();
        pending.push(shrunk);
        self.pending = pending;
        self.stage = PipelineStage::Shrunk;
        assert(self.pending@ =~= seq![shrunk]);
        Ok(())
    }

    /// Wraps the shrunk proof at the root: `root` holds the root public
    /// values, whose digest is checked.
    pub fn root(&mut self, config: &HashConfig, root: &RootPublicValues) -> (r: Result<(), PipelineError>)
        requires
            old(self).wf(),
        ensures
            final(self).wf(),
            final(self)@ == root_next(old(self)@, *root),
            r is Ok <==> final(self)@.stage == PipelineStage::Rooted,
            old(self)@.stage != PipelineStage::Shrunk ==> r == Err::<(), PipelineError>(PipelineError::OutOfOrder),
            old(self)@.stage == PipelineStage::Shrunk && !root_valid(*root) ==> (r matches Err(
                PipelineError::DigestMismatch { stage, round, index, mismatch },
            ) && stage == StageKind::Root && round == old(self)@.rounds && index == 0 && is_first_mismatch(
                mismatch,
                root.inner.digest@,
                root_digest(*root),
            )),
    {
        match self.stage {
            PipelineStage::Shrunk => {},
            _ => {
                return self.abort(PipelineError::OutOfOrder);
            },
        }
        match assert_root_public_values_valid(config, root) {
            Ok(()) => {},
            Err(mismatch) => {
                let round = self.rounds;
                return self.abort(PipelineError::DigestMismatch { stage: StageKind::Root, round, index: 0, mismatch });
            },
        }
        self.stage = PipelineStage::Rooted;
        Ok(())
    }
}

} // verus!
