//! Little-endian byte layout of 32-bit words, the unit of every field that a
//! GPU-visible uniform block holds.

use vstd::prelude::*;

verus! {

/// The four bytes of a word, least significant first.
pub open spec fn word_bytes(w: u32) -> Seq<u8> {
    seq![(w & 0xff) as u8, ((w >> 8) & 0xff) as u8, ((w >> 16) & 0xff) as u8, ((w >> 24) & 0xff) as u8]
}

/// The word that four bytes hold, least significant first.
pub open spec fn word_from(b0: u8, b1: u8, b2: u8, b3: u8) -> u32 {
    (b0 as u32) | ((b1 as u32) << 8) | ((b2 as u32) << 16) | ((b3 as u32) << 24)
}

/// The bytes of a sequence of words, each word's four bytes in turn.
pub open spec fn words_bytes(ws: Seq<u32>) -> Seq<u8> {
    Seq::new(4 * ws.len(), |k: int| word_bytes(ws[k / 4])[k % 4])
}

/// The words that a byte sequence holds, four bytes each; a trailing part of
/// fewer than four bytes holds no word.
pub open spec fn words_of_bytes(b: Seq<u8>) -> Seq<u32> {
    Seq::new(b.len() / 4, |i: int| word_from(b[4 * i], b[4 * i + 1], b[4 * i + 2], b[4 * i + 3]))
}

proof fn lemma_word_from_bytes(w: u32)
    ensures
        word_from(word_bytes(w)[0], word_bytes(w)[1], word_bytes(w)[2], word_bytes(w)[3]) == w,
{
    let b0 = (w & 0xff) as u8;
    let b1 = ((w >> 8) & 0xff) as u8;
    let b2 = ((w >> 16) & 0xff) as u8;
    let b3 = ((w >> 24) & 0xff) as u8;
    assert(word_bytes(w)[0] == b0 && word_bytes(w)[1] == b1 && word_bytes(w)[2] == b2
        && word_bytes(w)[3] == b3);
    assert((b0 as u32) | ((b1 as u32) << 8) | ((b2 as u32) << 16) | ((b3 as u32) << 24) == w)
        by (bit_vector)
        requires
            b0 == (w & 0xff) as u8,
            b1 == ((w >> 8) & 0xff) as u8,
            b2 == ((w >> 16) & 0xff) as u8,
            b3 == ((w >> 24) & 0xff) as u8,
    ;
}

proof fn lemma_bytes_from_word(b0: u8, b1: u8, b2: u8, b3: u8)
    ensures
        word_bytes(word_from(b0, b1, b2, b3)) == seq![b0, b1, b2, b3],
{
    let w = word_from(b0, b1, b2, b3);
    assert((w & 0xff) as u8 == b0 && ((w >> 8) & 0xff) as u8 == b1 && ((w >> 16) & 0xff) as u8
        == b2 && ((w >> 24) & 0xff) as u8 == b3) by (bit_vector)
        requires
            w == (b0 as u32) | ((b1 as u32) << 8) | ((b2 as u32) << 16) | ((b3 as u32) << 24),
    ;
    assert(word_bytes(w) =~= seq![b0, b1, b2, b3]);
}

/// Reading the words back from the bytes of a word sequence gives the sequence.
pub proof fn lemma_words_round_trip(ws: Seq<u32>)
    ensures
        words_of_bytes(words_bytes(ws)) == ws,
{
    let b = words_bytes(ws);
    assert(b.len() / 4 == ws.len());
    assert forall|i: int| 0 <= i < ws.len() implies #[trigger] words_of_bytes(b)[i] == ws[i] by {
        assert((4 * i) / 4 == i && (4 * i + 1) / 4 == i && (4 * i + 2) / 4 == i && (4 * i + 3) / 4
            == i);
        assert((4 * i) % 4 == 0 && (4 * i + 1) % 4 == 1 && (4 * i + 2) % 4 == 2 && (4 * i + 3) % 4
            == 3);
        lemma_word_from_bytes(ws[i]);
    }
    assert(words_of_bytes(b) =~= ws);
}

/// Writing out the words that a byte sequence of whole words holds gives the
/// byte sequence back.
pub proof fn lemma_bytes_round_trip(b: Seq<u8>)
    requires
        b.len() % 4 == 0,
    ensures
        words_bytes(words_of_bytes(b)) == b,
{
    let ws = words_of_bytes(b);
    assert(4 * ws.len() == b.len());
    assert forall|k: int| 0 <= k < b.len() implies #[trigger] words_bytes(ws)[k] == b[k] by {
        let i = k / 4;
        let j = k % 4;
        assert(k == 4 * i + j && 0 <= j < 4 && 0 <= i < ws.len());
        lemma_bytes_from_word(b[4 * i], b[4 * i + 1], b[4 * i + 2], b[4 * i + 3]);
        assert(word_bytes(ws[i]) == seq![b[4 * i], b[4 * i + 1], b[4 * i + 2], b[4 * i + 3]]);
    }
    assert(words_bytes(ws) =~= b);
}

/// The little-endian bytes of every word, in order.
pub fn encode_words(ws: &[u32]) -> (r: Vec<u8>)
    requires
        4 * ws@.len() <= usize::MAX,
    ensures
        r@ == words_bytes(ws@),
{
    let mut out: Vec<u8> = Vec::with_capacity(4 * ws.len());
    let mut i: usize = 0;
    while i < ws.len()
        invariant
            i <= ws@.len(),
            4 * ws@.len() <= usize::MAX,
            out@ =~= words_bytes(ws@.subrange(0, i as int)),
        decreases ws@.len() - i,
    {
        let w = ws[i];
        out.push((w & 0xff) as u8);
        out.push(((w >> 8) & 0xff) as u8);
        out.push(((w >> 16) & 0xff) as u8);
        out.push(((w >> 24) & 0xff) as u8);
        proof {
            let next = words_bytes(ws@.subrange(0, i + 1));
            assert forall|k: int| 0 <= k < 4 * (i + 1) implies #[trigger] next[k] == out@[k] by {
                if k < 4 * i {
                    assert(k / 4 < i);
                } else {
                    assert(k / 4 == i as int);
                }
            }
            assert(out@ =~= next);
        }
        i = i + 1;
    }
    assert(ws@.subrange(0, ws@.len() as int) =~= ws@);
    out
}

/// The word stored little-endian at byte offset `at`.
pub fn read_word(b: &[u8], at: usize) -> (r: u32)
    requires
        at + 4 <= b@.len(),
    ensures
        r == word_from(b@[at as int], b@[at + 1], b@[at + 2], b@[at + 3]),
{
    (b[at] as u32) | ((b[at + 1] as u32) << 8) | ((b[at + 2] as u32) << 16) | ((b[at + 3] as u32)
        << 24)
}

/// The words that a byte sequence holds, four little-endian bytes each; a
/// trailing part of fewer than four bytes is left out.
pub fn decode_words(b: &[u8]) -> (r: Vec<u32>)
    ensures
        r@ == words_of_bytes(b@),
{
    let len = b.len();
    let n = len / 4;
    let mut out: Vec<u32> = Vec::with_capacity(n);
    let mut i: usize = 0;
    while i < n
        invariant
            len == b@.len(),
            n == len / 4,
            i <= n,
            out@ =~= words_of_bytes(b@).subrange(0, i as int),
        decreases n - i,
    {
        assert(4 * i + 4 <= 4 * n <= len);
        let w = read_word(b, 4 * i);
        out.push(w);
        i = i + 1;
    }
    out
}

} // verus!
