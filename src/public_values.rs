//! The public values that recursive proofs carry, as flat element records.

use vstd::prelude::*;
use crate::field::Digest;
use crate::words::{flatten_words, Word};

verus! {

/// The number of leading elements of the flattened public values that the
/// digest covers: everything but the digest itself.
pub const NUM_PV_ELMS_TO_HASH: usize = 54;

/// The number of elements of the flattened public values.
pub const RECURSIVE_PROOF_NUM_PV_ELTS: usize = 62;

/// The public values of a recursive proof. Flattened, the fields come in
/// declaration order; `digest` comes last and is the claimed digest of all
/// that precedes it.
#[derive(Clone, Copy, Debug, PartialEq, Eq)]
pub struct RecursionPublicValues {
    pub committed_value_digest: [Word<u32>; 8],
    pub deferred_proofs_digest: [u32; 8],
    pub start_pc: u32,
    pub next_pc: u32,
    pub start_shard: u32,
    pub next_shard: u32,
    pub exit_code: u32,
    pub is_complete: u32,
    pub sp1_vk_digest: [u32; 8],
    pub digest: Digest,
}

impl RecursionPublicValues {
    /// The elements that the digest covers, in order.
    pub open spec fn hashed_elements(&self) -> Seq<u32> {
        flatten_words(self.committed_value_digest@) + self.deferred_proofs_digest@ + seq![
            self.start_pc,
            self.next_pc,
            self.start_shard,
            self.next_shard,
            self.exit_code,
            self.is_complete,
        ] + self.sp1_vk_digest@
    }

    /// All elements, the digest last.
    pub open spec fn elements(&self) -> Seq<u32> {
        self.hashed_elements() + self.digest@
    }

    /// The flattened public values hold the hashed elements, then the digest.
    pub proof fn lemma_lengths(&self)
        ensures
            self.hashed_elements().len() == NUM_PV_ELMS_TO_HASH,
            self.elements().len() == RECURSIVE_PROOF_NUM_PV_ELTS,
            self.elements().subrange(0, NUM_PV_ELMS_TO_HASH as int) == self.hashed_elements(),
            self.elements().subrange(NUM_PV_ELMS_TO_HASH as int, RECURSIVE_PROOF_NUM_PV_ELTS as int)
                == self.digest@,
    {
        assert(self.elements().subrange(0, NUM_PV_ELMS_TO_HASH as int) =~= self.hashed_elements());
        assert(self.elements().subrange(NUM_PV_ELMS_TO_HASH as int, RECURSIVE_PROOF_NUM_PV_ELTS as int)
            =~= self.digest@);
    }

    /// The flattened public values.
    pub fn as_array(&self) -> (r: Vec<u32>)
        ensures
            r@ == self.elements(),
    {
        let mut out: Vec<u32> = Vec::new();
        let mut i: usize = 0;
        while i < 8
            invariant
                i <= 8,
                out@ =~= flatten_words(self.committed_value_digest@).subrange(0, 4 * i),
            decreases 8 - i,
        {
            let w = self.committed_value_digest[i].0;
            out.push(w[0]);
            out.push(w[1]);
            out.push(w[2]);
            out.push(w[3]);
            i = i + 1;
        }
        push_all(&mut out, &self.deferred_proofs_digest);
        out.push(self.start_pc);
        out.push(self.next_pc);
        out.push(self.start_shard);
        out.push(self.next_shard);
        out.push(self.exit_code);
        out.push(self.is_complete);
        push_all(&mut out, &self.sp1_vk_digest);
        push_all(&mut out, &self.digest);
        assert(out@ =~= self.elements());
        out
    }

    /// Reads public values back from their flattened form, the leading
    /// `RECURSIVE_PROOF_NUM_PV_ELTS` elements of `s`.
    pub fn from_slice(s: &[u32]) -> (r: RecursionPublicValues)
        requires
            s@.len() >= RECURSIVE_PROOF_NUM_PV_ELTS,
        ensures
            r.elements() == s@.subrange(0, RECURSIVE_PROOF_NUM_PV_ELTS as int),
    {
        let committed_value_digest = [
            read_word(s, 0),
            read_word(s, 4),
            read_word(s, 8),
            read_word(s, 12),
            read_word(s, 16),
            read_word(s, 20),
            read_word(s, 24),
            read_word(s, 28),
        ];
        let r = RecursionPublicValues {
            committed_value_digest,
            deferred_proofs_digest: read_digest(s, 32),
            start_pc: s[40],
            next_pc: s[41],
            start_shard: s[42],
            next_shard: s[43],
            exit_code: s[44],
            is_complete: s[45],
            sp1_vk_digest: read_digest(s, 46),
            digest: read_digest(s, 54),
        };
        proof {
            let f = flatten_words(r.committed_value_digest@);
            assert forall|k: int| 0 <= k < 32 implies f[k] == s@[k] by {
                let w = k / 4;
                assert(r.committed_value_digest@[w].0@ == s@.subrange(4 * w, 4 * w + 4)) by {
                    assert(w == 0 || w == 1 || w == 2 || w == 3 || w == 4 || w == 5 || w == 6 || w == 7);
                }
            }
            assert(r.elements() =~= s@.subrange(0, RECURSIVE_PROOF_NUM_PV_ELTS as int));
        }
        r
    }
}

/// Appends the elements of `a` to `v`.
fn push_all(v: &mut Vec<u32>, a: &[u32])
    ensures
        final(v)@ == old(v)@ + a@,
{
    let mut i: usize = 0;
    while i < a.len()
        invariant
            i <= a@.len(),
            v@ =~= old(v)@ + a@.subrange(0, i as int),
        decreases a@.len() - i,
    {
        v.push(a[i]);
        i = i + 1;
    }
    assert(a@.subrange(0, a@.len() as int) =~= a@);
}

fn read_word(s: &[u32], off: usize) -> (r: Word<u32>)
    requires
        off + 4 <= s@.len(),
    ensures
        r.0@ == s@.subrange(off as int, off + 4),
{
    let r = Word([s[off], s[off + 1], s[off + 2], s[off + 3]]);
    assert(r.0@ =~= s@.subrange(off as int, off + 4));
    r
}

fn read_digest(s: &[u32], off: usize) -> (r: Digest)
    requires
        off + 8 <= s@.len(),
    ensures
        r@ == s@.subrange(off as int, off + 8),
{
    let r = [
        s[off],
        s[off + 1],
        s[off + 2],
        s[off + 3],
        s[off + 4],
        s[off + 5],
        s[off + 6],
        s[off + 7],
    ];
    assert(r@ =~= s@.subrange(off as int, off + 8));
    r
}

} // verus!

verus! {

/// The public values of the root proof: the recursion public values of the
/// final proof, of which the root digest covers the verification-key digest
/// and the committed-value digest.
#[derive(Clone, Copy, Debug, PartialEq, Eq)]
pub struct RootPublicValues {
    pub inner: RecursionPublicValues,
}

impl RootPublicValues {
    pub fn new(inner: RecursionPublicValues) -> (r: RootPublicValues)
        ensures
            r.inner == inner,
    {
        RootPublicValues { inner }
    }

    pub fn sp1_vk_digest(&self) -> (r: &[u32; 8])
        ensures
            *r == self.inner.sp1_vk_digest,
    {
        &self.inner.sp1_vk_digest
    }

    pub fn committed_value_digest(&self) -> (r: &[Word<u32>; 8])
        ensures
            *r == self.inner.committed_value_digest,
    {
        &self.inner.committed_value_digest
    }

    pub fn digest(&self) -> (r: &Digest)
        ensures
            *r == self.inner.digest,
    {
        &self.inner.digest
    }

    /// The elements that the root digest covers: the verification-key digest,
    /// then the committed-value digest's words flattened.
    pub open spec fn hashed_elements(&self) -> Seq<u32> {
        self.inner.sp1_vk_digest@ + flatten_words(self.inner.committed_value_digest@)
    }
}

} // verus!
