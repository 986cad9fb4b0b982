//! Words on the wire: 32-bit values serialised as little-endian 4-byte
//! groups, concatenated in order, with no framing.
use vstd::prelude::*;

verus! {

/// Byte `k` (0 = least significant) of a 32-bit word.
pub open spec fn byte_of(w: u32, k: int) -> u8 {
    if k == 0 {
        (w & 0xff) as u8
    } else if k == 1 {
        ((w >> 8u32) & 0xff) as u8
    } else if k == 2 {
        ((w >> 16u32) & 0xff) as u8
    } else {
        (w >> 24u32) as u8
    }
}

/// The word whose little-endian bytes are `b0, b1, b2, b3`.
pub open spec fn word_of(b0: u8, b1: u8, b2: u8, b3: u8) -> u32 {
    (b0 as u32) | ((b1 as u32) << 8u32) | ((b2 as u32) << 16u32) | ((b3 as u32) << 24u32)
}

/// The wire form of a word sequence: four bytes per word, in order.
pub open spec fn le_bytes(ws: Seq<u32>) -> Seq<u8> {
    Seq::new((4 * ws.len()) as nat, |i: int| byte_of(ws[i / 4], i % 4))
}

/// The words read back from a byte sequence: one per complete 4-byte group,
/// a trailing partial group being ignored.
pub open spec fn le_words(bs: Seq<u8>) -> Seq<u32> {
    Seq::new(bs.len() / 4, |i: int| word_of(bs[4 * i], bs[4 * i + 1], bs[4 * i + 2], bs[4 * i + 3]))
}

proof fn lemma_word_bytes(w: u32)
    ensures
        word_of(byte_of(w, 0), byte_of(w, 1), byte_of(w, 2), byte_of(w, 3)) == w,
{
    assert(((w & 0xff) as u8) as u32 | ((((w >> 8u32) & 0xff) as u8) as u32) << 8u32 | ((((w
        >> 16u32) & 0xff) as u8) as u32) << 16u32 | (((w >> 24u32) as u8) as u32) << 24u32 == w)
        by (bit_vector);
}

/// Reading back what was written gives the same words at the same
/// positions: the host side of a dispatch keeps length and order.
pub proof fn lemma_round_trip(ws: Seq<u32>)
    ensures
        le_words(le_bytes(ws)) == ws,
        le_bytes(ws).len() == 4 * ws.len(),
{
    let bs = le_bytes(ws);
    assert forall|i: int| 0 <= i < ws.len() implies #[trigger] le_words(bs)[i] == ws[i] by {
        assert((4 * i) / 4 == i && (4 * i + 1) / 4 == i && (4 * i + 2) / 4 == i && (4 * i + 3)
            / 4 == i);
        assert((4 * i) % 4 == 0 && (4 * i + 1) % 4 == 1 && (4 * i + 2) % 4 == 2 && (4 * i + 3)
            % 4 == 3);
        lemma_word_bytes(ws[i]);
    }
    assert(le_words(bs) =~= ws);
}

/// Serialises `words` in the wire form.
pub fn encode_words(words: &[u32]) -> (r: Vec<u8>)
    requires
        4 * words@.len() <= usize::MAX,
    ensures
        r@ == le_bytes(words@),
{
    let mut r: Vec<u8> = Vec::with_capacity(4 * words.len());
    let mut i: usize = 0;
    while i < words.len()
        invariant
            i <= words@.len(),
            4 * words@.len() <= usize::MAX,
            r@ == le_bytes(words@.subrange(0, i as int)),
        decreases words@.len() - i,
    {
        let w = words[i];
        r.push((w & 0xff) as u8);
        r.push(((w >> 8u32) & 0xff) as u8);
        r.push(((w >> 16u32) & 0xff) as u8);
        r.push((w >> 24u32) as u8);
        proof {
            let prev = words@.subrange(0, i as int);
            let next = words@.subrange(0, i + 1);
            assert forall|j: int| 0 <= j < 4 * next.len() implies #[trigger] r@[j] == le_bytes(
                next,
            )[j] by {
                if j < 4 * i {
                    assert(j / 4 < i);
                    assert(next[j / 4] == prev[j / 4]);
                } else {
                    assert(j / 4 == i);
                }
            }
            assert(r@ =~= le_bytes(next));
        }
        i = i + 1;
    }
    assert(words@.subrange(0, words@.len() as int) =~= words@);
    r
}

/// Reads the words of `bytes`, one per complete 4-byte group.
pub fn decode_words(bytes: &[u8]) -> (r: Vec<u32>)
    ensures
        r@ == le_words(bytes@),
{
    let n = bytes.len() / 4;
    let mut r: Vec<u32> = Vec::with_capacity(n);
    let mut i: usize = 0;
    while i < n
        invariant
            n == bytes@.len() / 4,
            bytes@.len() == bytes.len(),
            i <= n,
            r@.len() == i,
            forall|j: int| 0 <= j < i ==> #[trigger] r@[j] == le_words(bytes@)[j],
        decreases n - i,
    {
        assert(4 * i + 3 < bytes@.len());
        let k = 4 * i;
        let w = (bytes[k] as u32) | ((bytes[k + 1] as u32) << 8u32) | ((bytes[k + 2] as u32)
            << 16u32) | ((bytes[k + 3] as u32) << 24u32);
        r.push(w);
        i = i + 1;
    }
    assert(r@ =~= le_words(bytes@));
    r
}

} // verus!
