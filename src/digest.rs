//! Binding digests over public values: computing them, and checking a claimed
//! digest against the recomputed one.

use vstd::prelude::*;
use crate::field::{felt_eq, poseidon2_digest, Digest, HashConfig, BABYBEAR_P};
use crate::public_values::{
    RecursionPublicValues, RootPublicValues, NUM_PV_ELMS_TO_HASH,
};
use crate::words::Word;

verus! {

/// The digest that binds recursion public values.
pub open spec fn recursion_digest(pv: RecursionPublicValues) -> Seq<u32> {
    poseidon2_digest(pv.hashed_elements())
}

/// The digest that binds root public values.
pub open spec fn root_digest(pv: RootPublicValues) -> Seq<u32> {
    poseidon2_digest(pv.hashed_elements())
}

/// Every element of `claimed` is the same field element as that of `expected`.
pub open spec fn digests_match(claimed: Seq<u32>, expected: Seq<u32>) -> bool {
    forall|i: int| 0 <= i < 8 ==> felt_eq(#[trigger] claimed[i], expected[i])
}

/// A claimed digest that differs from the recomputed one: the first element
/// that differs, with both values.
#[derive(Clone, Copy, Debug, PartialEq, Eq)]
pub struct DigestMismatch {
    pub index: usize,
    pub expected: u32,
    pub actual: u32,
}

/// `e` reports the first element at which `claimed` and `expected` differ.
pub open spec fn is_first_mismatch(e: DigestMismatch, claimed: Seq<u32>, expected: Seq<u32>) -> bool {
    &&& e.index < 8
    &&& e.actual == claimed[e.index as int]
    &&& e.expected == expected[e.index as int]
    &&& !felt_eq(e.actual, e.expected)
    &&& forall|j: int| 0 <= j < e.index ==> felt_eq(#[trigger] claimed[j], expected[j])
}

/// The outcome of comparing a claimed digest with an expected one.
pub open spec fn check_outcome(r: Result<(), DigestMismatch>, claimed: Seq<u32>, expected: Seq<u32>) -> bool {
    &&& (r is Ok <==> digests_match(claimed, expected))
    &&& (r matches Err(e) ==> is_first_mismatch(e, claimed, expected))
}

/// Compares a claimed digest with an expected one, element by element.
pub fn check_digest(claimed: &Digest, expected: &Digest) -> (r: Result<(), DigestMismatch>)
    ensures
        check_outcome(r, claimed@, expected@),
{
    let mut i: usize = 0;
    while i < 8
        invariant
            i <= 8,
            forall|j: int| 0 <= j < i ==> felt_eq(#[trigger] claimed@[j], expected@[j]),
        decreases 8 - i,
    {
        if claimed[i] % BABYBEAR_P != expected[i] % BABYBEAR_P {
            return Err(DigestMismatch { index: i, expected: expected[i], actual: claimed[i] });
        }
        i = i + 1;
    }
    Ok(())
}

/// Computes the digest of recursion public values: the hash of the leading
/// `NUM_PV_ELMS_TO_HASH` elements of their flattened form.
pub fn recursion_public_values_digest(config: &HashConfig, public_values: &RecursionPublicValues) -> (r: Digest)
    ensures
        r@ == recursion_digest(*public_values),
        forall|i: int| 0 <= i < 8 ==> r[i] < BABYBEAR_P,
{
    let pv_array = public_values.as_array();
    proof {
        public_values.lemma_lengths();
    }
    let hashed = vstd::slice::slice_subrange(pv_array.as_slice(), 0, NUM_PV_ELMS_TO_HASH);
    config.hash_slice(hashed)
}

/// Computes the digest of root public values: the hash of the
/// verification-key digest followed by the committed-value digest's words.
pub fn root_public_values_digest(config: &HashConfig, public_values: &RootPublicValues) -> (r: Digest)
    ensures
        r@ == root_digest(*public_values),
        forall|i: int| 0 <= i < 8 ==> r[i] < BABYBEAR_P,
{
    let vk: &[u32; 8] = public_values.sp1_vk_digest();
    let words: &[Word<u32>; 8] = public_values.committed_value_digest();
    let mut input: Vec<u32> = Vec::new();
    let mut i: usize = 0;
    while i < 8
        invariant
            i <= 8,
            *vk == public_values.inner.sp1_vk_digest,
            input@ =~= vk@.subrange(0, i as int),
        decreases 8 - i,
    {
        input.push(vk[i]);
        i = i + 1;
    }
    let flat = crate::words::words_to_bytes(words);
    let mut k: usize = 0;
    while k < flat.len()
        invariant
            k <= flat@.len(),
            input@ =~= vk@ + flat@.subrange(0, k as int),
        decreases flat@.len() - k,
    {
        input.push(flat[k]);
        k = k + 1;
    }
    assert(input@ =~= public_values.hashed_elements());
    config.hash_slice(input.as_slice())
}

/// Checks that the claimed digest of recursion public values is the
/// recomputed one; on a mismatch, reports the first element that differs.
pub fn assert_recursion_public_values_valid(config: &HashConfig, public_values: &RecursionPublicValues) -> (r: Result<(), DigestMismatch>)
    ensures
        check_outcome(r, public_values.digest@, recursion_digest(*public_values)),
{
    let expected_digest = recursion_public_values_digest(config, public_values);
    check_digest(&public_values.digest, &expected_digest)
}

/// Checks that the claimed digest of root public values is the recomputed
/// one; on a mismatch, reports the first element that differs.
pub fn assert_root_public_values_valid(config: &HashConfig, public_values: &RootPublicValues) -> (r: Result<(), DigestMismatch>)
    ensures
        check_outcome(r, public_values.inner.digest@, root_digest(*public_values)),
{
    let expected_digest = root_public_values_digest(config, public_values);
    check_digest(public_values.digest(), &expected_digest)
}

} // verus!

verus! {

/// Digest determinism: the digest of recursion public values depends on the
/// elements it covers alone. Two records that agree on those elements, in
/// particular two calls on one record, get the same digest, whichever hash
/// configuration each call is given.
pub proof fn lemma_recursion_digest_deterministic(p: RecursionPublicValues, q: RecursionPublicValues)
    requires
        p.hashed_elements() == q.hashed_elements(),
    ensures
        recursion_digest(p) == recursion_digest(q),
{
}

/// Assert-valid round trip: public values `p` whose digest field is set to
/// their computed digest pass the check; a record `q` that differs from `p`
/// only in one corrupted element `i` of the digest field fails it, and the
/// failure reports that element.
pub proof fn lemma_assert_round_trip(p: RecursionPublicValues, q: RecursionPublicValues, i: int)
    requires
        p.digest@ == recursion_digest(p),
        q == (RecursionPublicValues { digest: q.digest, ..p }),
        0 <= i < 8,
        q.digest@ == p.digest@.update(i, q.digest[i]),
        !felt_eq(q.digest[i], p.digest[i]),
    ensures
        forall|r: Result<(), DigestMismatch>| #[trigger] check_outcome(r, p.digest@, recursion_digest(p)) ==> r is Ok,
        forall|r: Result<(), DigestMismatch>| #[trigger] check_outcome(r, q.digest@, recursion_digest(q))
            ==> (r matches Err(e) && e.index == i),
{
    assert(q.hashed_elements() == p.hashed_elements());
    assert forall|j: int| 0 <= j < 8 && j != i implies q.digest@[j] == recursion_digest(q)[j] by {}
}

/// Root digest composition: the root digest is the hash of the literal
/// concatenation of the verification-key digest's eight elements and the
/// committed-value digest's words, flattened in order.
pub proof fn lemma_root_digest_composition(pv: RootPublicValues)
    ensures
        root_digest(pv) == poseidon2_digest(pv.inner.sp1_vk_digest@ + crate::words::flatten_words(pv.inner.committed_value_digest@)),
        pv.hashed_elements().len() == 40,
        forall|i: int| 0 <= i < 8 ==> #[trigger] pv.hashed_elements()[i] == pv.inner.sp1_vk_digest[i],
        forall|w: int, j: int| 0 <= w < 8 && 0 <= j < 4 ==> #[trigger] pv.hashed_elements()[8 + 4 * w + j] == pv.inner.committed_value_digest[w].0[j],
{
    assert forall|w: int, j: int| 0 <= w < 8 && 0 <= j < 4 implies #[trigger] pv.hashed_elements()[8 + 4 * w + j] == pv.inner.committed_value_digest[w].0[j] by {
        let k = 4 * w + j;
        assert(k / 4 == w && k % 4 == j) by (nonlinear_arith)
            requires k == 4 * w + j, 0 <= j < 4, 0 <= w;
    }
}

} // verus!
