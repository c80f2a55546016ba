//! Bit access on 32-bit words and the big-endian byte order of the wire.
use vstd::prelude::*;

verus! {

/// Whether bit `b` (0 = least significant) of `w` is set.
pub open spec fn bit(w: u32, b: u32) -> bool {
    (w >> b) & 1u32 == 1u32
}

pub proof fn lemma_set_bit(w: u32, b: u32, i: u32)
    requires
        b < 32,
        i < 32,
    ensures
        bit(w | (1u32 << b), i) == (i == b || bit(w, i)),
{
    assert(((w | (1u32 << b)) >> i) & 1u32 == 1u32 <==> (i == b || (w >> i) & 1u32 == 1u32))
        by (bit_vector)
        requires
            b < 32,
            i < 32,
    ;
}

pub proof fn lemma_clear_bit(w: u32, b: u32, i: u32)
    requires
        b < 32,
        i < 32,
    ensures
        bit(w & !(1u32 << b), i) == (i != b && bit(w, i)),
{
    assert(((w & !(1u32 << b)) >> i) & 1u32 == 1u32 <==> (i != b && (w >> i) & 1u32 == 1u32))
        by (bit_vector)
        requires
            b < 32,
            i < 32,
    ;
}

pub proof fn lemma_zero_bits(i: u32)
    requires
        i < 32,
    ensures
        !bit(0u32, i),
{
    assert((0u32 >> i) & 1u32 != 1u32) by (bit_vector);
}

/// Byte `k` (0 = first on the wire) of the big-endian form of `w`.
pub open spec fn byte_of(w: u32, k: int) -> u8 {
    if k == 0 {
        (w >> 24u32) as u8
    } else if k == 1 {
        (w >> 16u32) as u8
    } else if k == 2 {
        (w >> 8u32) as u8
    } else {
        w as u8
    }
}

/// The word whose big-endian bytes are `b0 b1 b2 b3`.
pub open spec fn word_from_bytes(b0: u8, b1: u8, b2: u8, b3: u8) -> u32 {
    ((b0 as u32) << 24u32) | ((b1 as u32) << 16u32) | ((b2 as u32) << 8u32) | (b3 as u32)
}

/// The bytes that carry a sequence of words, most significant byte first.
pub open spec fn words_to_bytes(ws: Seq<u32>) -> Seq<u8> {
    Seq::new(4 * ws.len(), |j: int| byte_of(ws[j / 4], j % 4))
}

/// The words carried by a byte sequence whose length is a multiple of four.
pub open spec fn bytes_to_words(bs: Seq<u8>) -> Seq<u32> {
    Seq::new(
        bs.len() / 4,
        |i: int| word_from_bytes(bs[4 * i], bs[4 * i + 1], bs[4 * i + 2], bs[4 * i + 3]),
    )
}

pub proof fn lemma_word_bytes(w: u32)
    ensures
        word_from_bytes(byte_of(w, 0), byte_of(w, 1), byte_of(w, 2), byte_of(w, 3)) == w,
{
    assert(((((w >> 24u32) as u8) as u32) << 24u32) | ((((w >> 16u32) as u8) as u32) << 16u32)
        | ((((w >> 8u32) as u8) as u32) << 8u32) | ((w as u8) as u32) == w) by (bit_vector);
}

pub proof fn lemma_bytes_word(b0: u8, b1: u8, b2: u8, b3: u8)
    ensures
        byte_of(word_from_bytes(b0, b1, b2, b3), 0) == b0,
        byte_of(word_from_bytes(b0, b1, b2, b3), 1) == b1,
        byte_of(word_from_bytes(b0, b1, b2, b3), 2) == b2,
        byte_of(word_from_bytes(b0, b1, b2, b3), 3) == b3,
{
    let w = word_from_bytes(b0, b1, b2, b3);
    assert(w == ((b0 as u32) << 24u32) | ((b1 as u32) << 16u32) | ((b2 as u32) << 8u32) | (b3 as u32));
    assert((((((b0 as u32) << 24u32) | ((b1 as u32) << 16u32) | ((b2 as u32) << 8u32) | (b3 as u32)) >> 24u32) as u8) == b0
        && (((((b0 as u32) << 24u32) | ((b1 as u32) << 16u32) | ((b2 as u32) << 8u32) | (b3 as u32)) >> 16u32) as u8) == b1
        && (((((b0 as u32) << 24u32) | ((b1 as u32) << 16u32) | ((b2 as u32) << 8u32) | (b3 as u32)) >> 8u32) as u8) == b2
        && ((((b0 as u32) << 24u32) | ((b1 as u32) << 16u32) | ((b2 as u32) << 8u32) | (b3 as u32)) as u8) == b3)
        by (bit_vector);
}

/// Reading words back from their bytes gives the same words.
pub proof fn lemma_words_bytes_round_trip(ws: Seq<u32>)
    ensures
        bytes_to_words(words_to_bytes(ws)) == ws,
{
    let bs = words_to_bytes(ws);
    assert forall|i: int| 0 <= i < ws.len() implies #[trigger] bytes_to_words(bs)[i] == ws[i] by {
        assert((4 * i) / 4 == i && (4 * i) % 4 == 0);
        assert((4 * i + 1) / 4 == i && (4 * i + 1) % 4 == 1);
        assert((4 * i + 2) / 4 == i && (4 * i + 2) % 4 == 2);
        assert((4 * i + 3) / 4 == i && (4 * i + 3) % 4 == 3);
        lemma_word_bytes(ws[i]);
    }
    assert(bytes_to_words(bs) =~= ws);
}

/// Reading the bytes of words read from a byte sequence gives the same bytes.
pub proof fn lemma_bytes_words_round_trip(bs: Seq<u8>)
    requires
        bs.len() % 4 == 0,
    ensures
        words_to_bytes(bytes_to_words(bs)) == bs,
{
    let ws = bytes_to_words(bs);
    assert forall|j: int| 0 <= j < bs.len() implies #[trigger] words_to_bytes(ws)[j] == bs[j] by {
        let i = j / 4;
        assert(4 * i + j % 4 == j);
        assert(0 <= i < ws.len());
        lemma_bytes_word(bs[4 * i], bs[4 * i + 1], bs[4 * i + 2], bs[4 * i + 3]);
    }
    assert(words_to_bytes(ws) =~= bs);
}

/// The big-endian bytes of a word sequence.
pub fn to_be_bytes(ws: &Vec<u32>) -> (r: Vec<u8>)
    requires
        ws@.len() * 4 <= usize::MAX,
    ensures
        r@ == words_to_bytes(ws@),
{
    let mut out: Vec<u8> = Vec::new();
    let mut i: usize = 0;
    while i < ws.len()
        invariant
            i <= ws@.len(),
            ws@.len() * 4 <= usize::MAX,
            out@.len() == 4 * i,
            forall|j: int| 0 <= j < 4 * i ==> #[trigger] out@[j] == byte_of(ws@[j / 4], j % 4),
        decreases ws@.len() - i,
    {
        let w = ws[i];
        out.push((w >> 24u32) as u8);
        out.push((w >> 16u32) as u8);
        out.push((w >> 8u32) as u8);
        out.push(w as u8);
        assert forall|j: int| 0 <= j < 4 * (i + 1) implies #[trigger] out@[j] == byte_of(ws@[j / 4], j % 4) by {
            if j >= 4 * i {
                assert(j / 4 == i as int);
            }
        }
        i = i + 1;
    }
    assert(out@ =~= words_to_bytes(ws@));
    out
}

/// The words carried by `bs`; `None` where its length is not a multiple of four.
pub fn from_be_bytes(bs: &[u8]) -> (r: Option<Vec<u32>>)
    ensures
        r is Some <==> bs@.len() % 4 == 0,
        r matches Some(ws) ==> ws@ == bytes_to_words(bs@),
{
    if bs.len() % 4 != 0 {
        return None;
    }
    let len = bs.len();
    let n = len / 4;
    let mut out: Vec<u32> = Vec::new();
    let mut i: usize = 0;
    while i < n
        invariant
            n == bs@.len() / 4,
            len == bs@.len(),
            i <= n,
            out@.len() == i,
            forall|k: int| 0 <= k < i ==> #[trigger] out@[k] == word_from_bytes(bs@[4 * k], bs@[4 * k + 1], bs@[4 * k + 2], bs@[4 * k + 3]),
        decreases n - i,
    {
        assert(4 * i + 3 < bs@.len()) by (nonlinear_arith)
            requires
                i < n,
                n == bs@.len() / 4,
        ;
        assert(4 * i + 3 < len);
        let k = 4 * i;
        let w = ((bs[k] as u32) << 24u32) | ((bs[k + 1] as u32) << 16u32)
            | ((bs[k + 2] as u32) << 8u32) | (bs[k + 3] as u32);
        out.push(w);
        i = i + 1;
    }
    assert(out@ =~= bytes_to_words(bs@));
    Some(out)
}

} // verus!
