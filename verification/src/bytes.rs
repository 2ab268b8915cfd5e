//! Little-endian byte framing.
//!
//! The GPU boundary exchanges raw bytes: the uniform parameter block is
//! written to the device as a fixed byte layout, and the histogram readback
//! maps a staging buffer whose bytes are 32-bit counters. This module fixes
//! that framing once: what the four little-endian bytes of a word are, how
//! a sequence of words lays out as bytes, and that reading the bytes back
//! recovers exactly the words.

use vstd::arithmetic::div_mod::lemma_fundamental_div_mod;
use vstd::arithmetic::div_mod::lemma_fundamental_div_mod_converse;
use vstd::prelude::*;

verus! {

/// Byte `j` (0 = lowest) of a word's little-endian encoding.
pub open spec fn le_byte(w: u32, j: int) -> u8 {
    if j == 0 {
        (w & 0xff) as u8
    } else if j == 1 {
        ((w >> 8) & 0xff) as u8
    } else if j == 2 {
        ((w >> 16) & 0xff) as u8
    } else {
        ((w >> 24) & 0xff) as u8
    }
}

/// The four little-endian bytes of a word.
pub open spec fn le_bytes_of(w: u32) -> Seq<u8> {
    seq![le_byte(w, 0), le_byte(w, 1), le_byte(w, 2), le_byte(w, 3)]
}

/// The word spelled by four little-endian bytes.
pub open spec fn word_of(b0: u8, b1: u8, b2: u8, b3: u8) -> u32 {
    (b0 + 256 * b1 + 65536 * b2 + 16777216 * b3) as u32
}

/// The little-endian layout of a sequence of words.
pub open spec fn words_bytes(ws: Seq<u32>) -> Seq<u8>
    decreases ws.len(),
{
    if ws.len() == 0 {
        Seq::empty()
    } else {
        words_bytes(ws.drop_last()) + le_bytes_of(ws.last())
    }
}

/// The words read out of a byte buffer, four bytes each.
pub open spec fn words_of_bytes(bytes: Seq<u8>) -> Seq<u32> {
    Seq::new(
        bytes.len() / 4,
        |i: int| word_of(bytes[4 * i], bytes[4 * i + 1], bytes[4 * i + 2], bytes[4 * i + 3]),
    )
}

/// The little-endian bytes of a word spell the word again.
pub proof fn lemma_word_le_roundtrip(w: u32)
    ensures
        word_of(le_byte(w, 0), le_byte(w, 1), le_byte(w, 2), le_byte(w, 3)) == w,
{
    assert((w & 0xff) as u8 + 256 * (((w >> 8) & 0xff) as u8) + 65536 * (((w >> 16) & 0xff) as u8)
        + 16777216 * (((w >> 24) & 0xff) as u8) == w) by (bit_vector);
}

/// The layout of `ws` is four bytes per word, and byte `k` of it is byte
/// `k % 4` of word `k / 4`.
pub proof fn lemma_words_bytes_index(ws: Seq<u32>, k: int)
    requires
        0 <= k < 4 * ws.len(),
    ensures
        words_bytes(ws).len() == 4 * ws.len(),
        words_bytes(ws)[k] == le_byte(ws[k / 4], k % 4),
    decreases ws.len(),
{
    lemma_words_bytes_len(ws);
    let n = ws.len() as int;
    if k < 4 * (n - 1) {
        lemma_words_bytes_index(ws.drop_last(), k);
        assert(ws.drop_last()[k / 4] == ws[k / 4]) by {
            lemma_fundamental_div_mod(k, 4);
        }
    } else {
        lemma_words_bytes_len(ws.drop_last());
        lemma_fundamental_div_mod_converse(k, 4, n - 1, k - 4 * (n - 1));
        assert(words_bytes(ws)[k] == le_bytes_of(ws.last())[k - 4 * (n - 1)]);
    }
}

/// The layout of `ws` has four bytes per word.
pub proof fn lemma_words_bytes_len(ws: Seq<u32>)
    ensures
        words_bytes(ws).len() == 4 * ws.len(),
    decreases ws.len(),
{
    if ws.len() > 0 {
        lemma_words_bytes_len(ws.drop_last());
    }
}

/// Reading the layout of `ws` back as words recovers `ws` exactly.
pub proof fn lemma_words_roundtrip(ws: Seq<u32>)
    ensures
        words_of_bytes(words_bytes(ws)) == ws,
{
    lemma_words_bytes_len(ws);
    let bytes = words_bytes(ws);
    lemma_fundamental_div_mod(bytes.len() as int, 4);
    assert forall|i: int| 0 <= i < ws.len() implies words_of_bytes(bytes)[i] == ws[i] by {
        lemma_words_bytes_index(ws, 4 * i);
        lemma_words_bytes_index(ws, 4 * i + 1);
        lemma_words_bytes_index(ws, 4 * i + 2);
        lemma_words_bytes_index(ws, 4 * i + 3);
        lemma_fundamental_div_mod_converse(4 * i, 4, i, 0);
        lemma_fundamental_div_mod_converse(4 * i + 1, 4, i, 1);
        lemma_fundamental_div_mod_converse(4 * i + 2, 4, i, 2);
        lemma_fundamental_div_mod_converse(4 * i + 3, 4, i, 3);
        lemma_word_le_roundtrip(ws[i]);
    }
    assert(words_of_bytes(bytes) =~= ws);
}

/// Appends the four little-endian bytes of one word.
pub fn push_le_word(out: &mut Vec<u8>, w: u32)
    ensures
        final(out)@ == old(out)@ + le_bytes_of(w),
{
    out.push((w & 0xff) as u8);
    out.push(((w >> 8) & 0xff) as u8);
    out.push(((w >> 16) & 0xff) as u8);
    out.push(((w >> 24) & 0xff) as u8);
    proof {
        assert(out@ =~= old(out)@ + le_bytes_of(w));
    }
}

/// Lays a word buffer out as little-endian bytes, four per word.
pub fn words_to_bytes(ws: &Vec<u32>) -> (out: Vec<u8>)
    ensures
        out@ == words_bytes(ws@),
        out@.len() == 4 * ws@.len(),
{
    let mut out: Vec<u8> = Vec::new();
    let n: usize = ws.len();
    let mut i: usize = 0;
    while i < n
        invariant
            n == ws@.len(),
            i <= n,
            out@ == words_bytes(ws@.subrange(0, i as int)),
            out@.len() == 4 * i,
        decreases n - i,
    {
        push_le_word(&mut out, ws[i]);
        proof {
            let pre = ws@.subrange(0, i as int);
            let post = ws@.subrange(0, i + 1);
            assert(post.drop_last() =~= pre);
            assert(post.last() == ws@[i as int]);
            lemma_words_bytes_len(post);
        }
        i += 1;
    }
    proof {
        assert(ws@.subrange(0, n as int) =~= ws@);
    }
    out
}

/// Reads one word from four little-endian bytes.
pub fn word_from_le(b0: u8, b1: u8, b2: u8, b3: u8) -> (w: u32)
    ensures
        w == word_of(b0, b1, b2, b3),
{
    b0 as u32 + 256 * (b1 as u32) + 65536 * (b2 as u32) + 16777216 * (b3 as u32)
}

/// Reads a mapped byte buffer back as its little-endian words.
pub fn words_from_bytes(bytes: &Vec<u8>) -> (ws: Vec<u32>)
    requires
        bytes@.len() % 4 == 0,
    ensures
        ws@ == words_of_bytes(bytes@),
{
    let len: usize = bytes.len();
    let n: usize = len / 4;
    proof {
        lemma_fundamental_div_mod(len as int, 4);
    }
    let mut ws: Vec<u32> = Vec::new();
    let mut i: usize = 0;
    while i < n
        invariant
            len == bytes@.len(),
            len == 4 * n,
            i <= n,
            ws@.len() == i,
            forall|j: int|
                0 <= j < i ==> ws@[j] == word_of(
                    bytes@[4 * j],
                    bytes@[4 * j + 1],
                    bytes@[4 * j + 2],
                    bytes@[4 * j + 3],
                ),
        decreases n - i,
    {
        let w = word_from_le(bytes[4 * i], bytes[4 * i + 1], bytes[4 * i + 2], bytes[4 * i + 3]);
        ws.push(w);
        i += 1;
    }
    proof {
        assert(ws@ =~= words_of_bytes(bytes@));
    }
    ws
}

} // verus!
