//! Words of four elements, and their flattening to bytes or elements.

use vstd::prelude::*;

verus! {

/// A 32-bit quantity held as four elements, most significant first.
#[derive(Clone, Copy, Debug, PartialEq, Eq)]
pub struct Word<T>(pub [T; 4]);

/// The elements of a sequence of words, word after word.
pub open spec fn flatten_words<T>(words: Seq<Word<T>>) -> Seq<T> {
    Seq::new((4 * words.len()) as nat, |k: int| words[k / 4].0@[k % 4])
}

/// The four bytes of `w`, most significant first.
pub open spec fn be_bytes(w: u32) -> Seq<u8> {
    seq![(w >> 24u32) as u8, (w >> 16u32) as u8, (w >> 8u32) as u8, w as u8]
}

/// Flattens words into their elements, in order.
pub fn words_to_bytes<T: Copy>(words: &[Word<T>]) -> (r: Vec<T>)
    requires
        4 * words@.len() <= usize::MAX,
    ensures
        r@ == flatten_words(words@),
{
    let mut out: Vec<T> = Vec::new();
    let mut i: usize = 0;
    while i < words.len()
        invariant
            i <= words@.len(),
            4 * words@.len() <= usize::MAX,
            out@ =~= flatten_words(words@.subrange(0, i as int)),
        decreases words@.len() - i,
    {
        let w = words[i].0;
        out.push(w[0]);
        out.push(w[1]);
        out.push(w[2]);
        out.push(w[3]);
        proof {
            let prev = flatten_words(words@.subrange(0, i as int));
            let next = flatten_words(words@.subrange(0, i + 1));
            assert forall|k: int| 0 <= k < next.len() implies out@[k] == next[k] by {
                if k < 4 * i {
                    assert(next[k] == prev[k]);
                }
            }
        }
        i = i + 1;
    }
    proof {
        assert(words@.subrange(0, words@.len() as int) =~= words@);
    }
    out
}

/// The four big-endian bytes of a `u32`.
fn u32_be_bytes(w: u32) -> (r: [u8; 4])
    ensures
        r@ == be_bytes(w),
{
    let r = [(w >> 24u32) as u8, (w >> 16u32) as u8, (w >> 8u32) as u8, w as u8];
    assert(r@ =~= be_bytes(w));
    r
}

/// Converts eight `u32` words to 32 bytes, each word big-endian.
pub fn words_to_bytes_be(words: &[u32; 8]) -> (r: [u8; 32])
    ensures
        forall|k: int| 0 <= k < 32 ==> #[trigger] r[k] == be_bytes(words[k / 4])[k % 4],
{
    let mut bytes = [0u8; 32];
    let mut i: usize = 0;
    while i < 8
        invariant
            i <= 8,
            forall|k: int| 0 <= k < 4 * i ==> #[trigger] bytes[k] == be_bytes(words[k / 4])[k % 4],
        decreases 8 - i,
    {
        let word_bytes = u32_be_bytes(words[i]);
        let mut j: usize = 0;
        while j < 4
            invariant
                i < 8,
                j <= 4,
                word_bytes@ == be_bytes(words[i as int]),
                forall|k: int| 0 <= k < 4 * i + j ==> #[trigger] bytes[k] == be_bytes(words[k / 4])[k % 4],
            decreases 4 - j,
        {
            bytes[i * 4 + j] = word_bytes[j];
            j = j + 1;
        }
        i = i + 1;
    }
    bytes
}

} // verus!
