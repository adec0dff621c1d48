use vstd::prelude::*;

verus! {

/// Byte `i` of the 64-bit word `w`, counting from the least significant
/// byte: the byte that a little-endian store of `w` puts at offset `i`.
pub open spec fn word_byte(w: u64, i: u64) -> u8 {
    ((w >> ((i * 8) as u64)) & 0xff) as u8
}

proof fn lemma_zero_word_bytes()
    by (bit_vector)
    ensures
        forall|i: u64| i < 8 ==> #[trigger] word_byte(0u64, i) == 0,
{
}

proof fn lemma_or_byte_keeps_others(w: u64, b: u64, k: u64, i: u64)
    by (bit_vector)
    requires
        k < 8,
        i < 8,
        i != k,
        b < 256,
    ensures
        word_byte(w | (b << ((k * 8) as u64)), i) == word_byte(w, i),
{
}

proof fn lemma_or_byte_sets(w: u64, b: u64, k: u64)
    by (bit_vector)
    requires
        k < 8,
        b < 256,
        word_byte(w, k) == 0,
    ensures
        word_byte(w | (b << ((k * 8) as u64)), k) == b,
{
}

proof fn lemma_mask_low_bytes(w: u64, t: u64)
    by (bit_vector)
    requires
        0 < t < 8,
    ensures
        forall|i: u64|
            i < t ==> #[trigger] word_byte((w >> ((t * 8) as u64)) << ((t * 8) as u64), i) == 0,
        forall|i: u64|
            t <= i < 8 ==> #[trigger] word_byte((w >> ((t * 8) as u64)) << ((t * 8) as u64), i)
                == word_byte(w, i),
{
}

/// Packs the eight bytes of `bytes` starting at `off` into one word,
/// least significant byte first, so that a little-endian store of the
/// word reproduces the bytes in their order.
pub fn pack_word(bytes: &Vec<u8>, off: usize) -> (w: u64)
    requires
        off + 8 <= bytes@.len(),
    ensures
        forall|i: u64| i < 8 ==> #[trigger] word_byte(w, i) == bytes@[off + i],
{
    proof {
        lemma_zero_word_bytes();
    }
    let n: usize = bytes.len();
    let mut w: u64 = 0;
    let mut k: usize = 0;
    while k < 8
        invariant
            k <= 8,
            n == bytes@.len(),
            off + 8 <= n,
            forall|i: u64| i < k ==> #[trigger] word_byte(w, i) == bytes@[off + i],
            forall|i: u64| k <= i < 8 ==> #[trigger] word_byte(w, i) == 0,
        decreases 8 - k,
    {
        let b: u8 = bytes[off + k];
        let shift: u64 = (k as u64) * 8;
        let nw: u64 = w | ((b as u64) << shift);
        proof {
            let ko: u64 = k as u64;
            let bb: u64 = b as u64;
            assert(nw == (w | (bb << ((ko * 8) as u64))));
            assert forall|i: u64| i < 8 && i != ko implies #[trigger] word_byte(nw, i)
                == word_byte(w, i) by {
                lemma_or_byte_keeps_others(w, bb, ko, i);
            }
            lemma_or_byte_sets(w, bb, ko);
        }
        w = nw;
        k = k + 1;
    }
    w
}

/// Builds the word for a final, partial stretch of payload bytes: the low
/// `bytes.len() - off` byte positions take the payload bytes from `off`
/// on, and every higher byte position keeps the byte that `old_word`
/// already has there.
pub fn merge_tail_word(bytes: &Vec<u8>, off: usize, old_word: u64) -> (w: u64)
    requires
        off < bytes@.len(),
        bytes@.len() - off < 8,
    ensures
        forall|i: u64|
            i < bytes@.len() - off ==> #[trigger] word_byte(w, i) == bytes@[off + i],
        forall|i: u64|
            bytes@.len() - off <= i < 8 ==> #[trigger] word_byte(w, i) == word_byte(old_word, i),
{
    let t: usize = bytes.len() - off;
    let shift: u64 = (t as u64) * 8;
    let mut w: u64 = (old_word >> shift) << shift;
    proof {
        lemma_mask_low_bytes(old_word, t as u64);
    }
    let mut k: usize = 0;
    while k < t
        invariant
            k <= t,
            bytes@.len() <= usize::MAX,
            off + t == bytes@.len(),
            t == bytes@.len() - off,
            0 < t < 8,
            forall|i: u64| i < k ==> #[trigger] word_byte(w, i) == bytes@[off + i],
            forall|i: u64| k <= i < t ==> #[trigger] word_byte(w, i) == 0,
            forall|i: u64| t <= i < 8 ==> #[trigger] word_byte(w, i) == word_byte(old_word, i),
        decreases t - k,
    {
        let b: u8 = bytes[off + k];
        let sh: u64 = (k as u64) * 8;
        let nw: u64 = w | ((b as u64) << sh);
        proof {
            let ko: u64 = k as u64;
            let bb: u64 = b as u64;
            assert(nw == (w | (bb << ((ko * 8) as u64))));
            assert forall|i: u64| i < 8 && i != ko implies #[trigger] word_byte(nw, i)
                == word_byte(w, i) by {
                lemma_or_byte_keeps_others(w, bb, ko, i);
            }
            lemma_or_byte_sets(w, bb, ko);
        }
        w = nw;
        k = k + 1;
    }
    w
}

} // verus!
