//! The parts of proofs that the composition logic reads: their public values.

use vstd::prelude::*;
use crate::public_values::{RecursionPublicValues, RECURSIVE_PROOF_NUM_PV_ELTS};

verus! {

/// A proof of one shard, of which only the flattened public values are read.
#[derive(Clone, Debug)]
pub struct ShardProof {
    pub public_values: Vec<u32>,
}

/// A recursive (reduce) proof.
#[derive(Clone, Debug)]
pub struct SP1ReduceProof {
    pub proof: ShardProof,
}

/// The shard proofs of one execution, as handed to persistence.
#[derive(Clone, Debug)]
pub struct SP1CoreProofData(pub Vec<ShardProof>);

/// The verification-key digest that a reduce proof's public values represent,
/// read from their leading elements.
pub fn sp1_vkey_digest_babybear(proof: &SP1ReduceProof) -> (r: [u32; 8])
    requires
        proof.proof.public_values@.len() >= RECURSIVE_PROOF_NUM_PV_ELTS,
    ensures
        r@ == proof.proof.public_values@.subrange(46, 54),
{
    let pv = RecursionPublicValues::from_slice(proof.proof.public_values.as_slice());
    proof {
        assert(pv.elements().subrange(46, 54) =~= pv.sp1_vk_digest@);
    }
    pv.sp1_vk_digest
}

} // verus!
