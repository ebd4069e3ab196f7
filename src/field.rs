//! BabyBear field elements as canonical `u32` values, and the Poseidon2 sponge
//! that digests sequences of them.

use vstd::prelude::*;
use p3_baby_bear::{default_babybear_poseidon2_16, BabyBear, Poseidon2BabyBear};
use p3_field::PrimeField32;
use p3_symmetric::{CryptographicHasher, PaddingFreeSponge};

verus! {

/// The BabyBear prime, 15 * 2^27 + 1.
pub const BABYBEAR_P: u32 = 0x78000001;

/// The number of field elements in a digest.
pub const DIGEST_SIZE: usize = 8;

/// A digest: eight field elements.
pub type Digest = [u32; 8];

/// Two `u32` values stand for the same field element.
pub open spec fn felt_eq(a: u32, b: u32) -> bool {
    a % BABYBEAR_P == b % BABYBEAR_P
}

/// What the sponge hands back for an input sequence of elements.
pub uninterp spec fn poseidon2_digest(input: Seq<u32>) -> Seq<u32>;

/// The hash configuration: the default width-16 Poseidon2 permutation over
/// BabyBear, used as a padding-free sponge of rate 8 with 8 output elements.
/// Every digest computation builds its own copy of the permutation, so no
/// permutation state is ever shared between computations, and any two values
/// of this type are interchangeable.
#[derive(Clone, Copy, Debug, PartialEq, Eq)]
pub struct HashConfig {}

/// Relies on p3_symmetric::PaddingFreeSponge::hash_iter (width 16, rate 8,
/// output 8) over p3_baby_bear::default_babybear_poseidon2_16: each input `u32`
/// becomes a field element by `BabyBear::new`, each output element is read back
/// by `as_canonical_u32`, which lies below the prime. The permutation is built
/// from fixed constants, so the result depends on the input elements alone.
#[verifier::external_body]
fn sponge_hash(input: &[u32]) -> (r: Digest)
    ensures
        r@ == poseidon2_digest(input@),
        forall|i: int| 0 <= i < 8 ==> r[i] < BABYBEAR_P,
{
    let perm: Poseidon2BabyBear<16> = default_babybear_poseidon2_16();
    let hasher = PaddingFreeSponge::<Poseidon2BabyBear<16>, 16, 8, 8>::new(perm);
    let out: [BabyBear; 8] = hasher.hash_iter(input.iter().map(|x| BabyBear::new(*x)));
    out.map(|x| x.as_canonical_u32())
}

impl HashConfig {
    /// The configuration with the default permutation.
    pub fn new() -> (r: HashConfig) {
        HashConfig {}
    }

    /// Hashes a sequence of field elements to a digest.
    pub fn hash_slice(&self, input: &[u32]) -> (r: Digest)
        ensures
            r@ == poseidon2_digest(input@),
            forall|i: int| 0 <= i < 8 ==> r[i] < BABYBEAR_P,
    {
        sponge_hash(input)
    }
}

} // verus!
