//! Little-endian serialisation of 32-bit words.
//!
//! The boundary hands every numeric buffer to the host as raw bytes: four
//! little-endian bytes per 32-bit word, one word after another, no padding.
//! Vertex coordinates travel as the IEEE-754 bit patterns of their 32-bit
//! floating-point values, so one encoder serves indices and coordinates alike.

use vstd::prelude::*;

verus! {

/// The four little-endian bytes of one 32-bit word.
pub open spec fn u32_le_bytes(v: u32) -> Seq<u8> {
    seq![
        (v & 0xff) as u8,
        ((v >> 8) & 0xff) as u8,
        ((v >> 16) & 0xff) as u8,
        ((v >> 24) & 0xff) as u8,
    ]
}

/// The word read back from four little-endian bytes.
pub open spec fn u32_from_le_bytes(b0: u8, b1: u8, b2: u8, b3: u8) -> u32 {
    (b0 as u32) | ((b1 as u32) << 8) | ((b2 as u32) << 16) | ((b3 as u32) << 24)
}

/// The little-endian byte stream of a word sequence: four bytes per word,
/// in word order.
pub open spec fn le_bytes_of_words(s: Seq<u32>) -> Seq<u8>
    decreases s.len(),
{
    if s.len() == 0 {
        Seq::empty()
    } else {
        u32_le_bytes(s[0]) + le_bytes_of_words(s.drop_first())
    }
}

/// The word sequence read back from a little-endian byte stream whose length
/// is a multiple of four.
pub open spec fn words_of_le_bytes(b: Seq<u8>) -> Seq<u32>
    recommends
        b.len() % 4 == 0,
    decreases b.len(),
{
    if b.len() < 4 {
        Seq::empty()
    } else {
        seq![u32_from_le_bytes(b[0], b[1], b[2], b[3])] + words_of_le_bytes(b.skip(4))
    }
}

/// The byte stream of a word sequence is four bytes per word.
pub proof fn lemma_le_bytes_len(s: Seq<u32>)
    ensures
        le_bytes_of_words(s).len() == 4 * s.len(),
    decreases s.len(),
{
    if s.len() > 0 {
        lemma_le_bytes_len(s.drop_first());
    }
}

/// Appending one word appends its four bytes.
pub proof fn lemma_le_bytes_push(s: Seq<u32>, v: u32)
    ensures
        le_bytes_of_words(s.push(v)) == le_bytes_of_words(s) + u32_le_bytes(v),
    decreases s.len(),
{
    assert(s.push(v)[0] == if s.len() == 0 { v } else { s[0] });
    if s.len() == 0 {
        assert(s.push(v).drop_first() =~= Seq::<u32>::empty());
        assert(le_bytes_of_words(Seq::<u32>::empty()) == Seq::<u8>::empty());
        assert(le_bytes_of_words(s.push(v)) =~= le_bytes_of_words(s) + u32_le_bytes(v));
    } else {
        assert(s.push(v).drop_first() =~= s.drop_first().push(v));
        lemma_le_bytes_push(s.drop_first(), v);
        assert(le_bytes_of_words(s.push(v)) =~= le_bytes_of_words(s) + u32_le_bytes(v));
    }
}

/// Reading the four little-endian bytes of a word back gives the word.
pub proof fn lemma_u32_le_round_trip(v: u32)
    ensures
        u32_from_le_bytes(
            (v & 0xff) as u8,
            ((v >> 8) & 0xff) as u8,
            ((v >> 16) & 0xff) as u8,
            ((v >> 24) & 0xff) as u8,
        ) == v,
{
    assert(((v & 0xff) as u8 as u32) | (((v >> 8) & 0xff) as u8 as u32) << 8
        | (((v >> 16) & 0xff) as u8 as u32) << 16 | (((v >> 24) & 0xff) as u8 as u32) << 24
        == v) by (bit_vector);
}

/// Reading a serialised word sequence back as little-endian words reproduces
/// the sequence exactly.
pub proof fn lemma_words_round_trip(s: Seq<u32>)
    ensures
        words_of_le_bytes(le_bytes_of_words(s)) == s,
    decreases s.len(),
{
    if s.len() == 0 {
        assert(words_of_le_bytes(le_bytes_of_words(s)) =~= s);
    } else {
        let b = le_bytes_of_words(s);
        lemma_le_bytes_len(s.drop_first());
        lemma_u32_le_round_trip(s[0]);
        lemma_words_round_trip(s.drop_first());
        assert(b.skip(4) =~= le_bytes_of_words(s.drop_first()));
        assert(words_of_le_bytes(b) =~= s);
    }
}

/// Encode each word as four little-endian bytes, in order, with no padding.
pub fn encode_words_le(values: &Vec<u32>) -> (out: Vec<u8>)
    ensures
        out@ == le_bytes_of_words(values@),
        out@.len() == 4 * values@.len(),
{
    let mut out: Vec<u8> = Vec::new();
    let mut i: usize = 0;
    while i < values.len()
        invariant
            i <= values@.len(),
            out@ == le_bytes_of_words(values@.take(i as int)),
        decreases values@.len() - i,
    {
        let v = values[i];
        out.push((v & 0xff) as u8);
        out.push(((v >> 8) & 0xff) as u8);
        out.push(((v >> 16) & 0xff) as u8);
        out.push(((v >> 24) & 0xff) as u8);
        proof {
            assert(values@.take(i + 1) =~= values@.take(i as int).push(values@[i as int]));
            lemma_le_bytes_push(values@.take(i as int), values@[i as int]);
            assert(out@ =~= le_bytes_of_words(values@.take(i as int)) + u32_le_bytes(
                values@[i as int],
            ));
        }
        i = i + 1;
    }
    proof {
        assert(values@.take(values@.len() as int) =~= values@);
        lemma_le_bytes_len(values@);
    }
    out
}

/// Read a little-endian byte stream back as 32-bit words. Returns the words
/// when the length is a whole number of words, and nothing otherwise.
pub fn decode_words_le(bytes: &Vec<u8>) -> (r: Option<Vec<u32>>)
    ensures
        r is Some <==> bytes@.len() % 4 == 0,
        r matches Some(words) ==> words@ == words_of_le_bytes(bytes@),
{
    if bytes.len() % 4 != 0 {
        return None;
    }
    let mut words: Vec<u32> = Vec::new();
    let mut i: usize = 0;
    while i < bytes.len()
        invariant
            bytes@.len() % 4 == 0,
            i % 4 == 0,
            i <= bytes@.len(),
            words@ == words_of_le_bytes(bytes@.take(i as int)),
        decreases bytes@.len() - i,
    {
        let b0 = bytes[i];
        let b1 = bytes[i + 1];
        let b2 = bytes[i + 2];
        let b3 = bytes[i + 3];
        let v = (b0 as u32) | ((b1 as u32) << 8) | ((b2 as u32) << 16) | ((b3 as u32) << 24);
        words.push(v);
        proof {
            lemma_words_take_step(bytes@, i as int);
        }
        i = i + 4;
    }
    proof {
        assert(bytes@.take(bytes@.len() as int) =~= bytes@);
    }
    Some(words)
}

/// Reading one more whole word extends the decoded sequence by that word.
proof fn lemma_words_take_step(b: Seq<u8>, i: int)
    requires
        0 <= i,
        i % 4 == 0,
        i + 4 <= b.len(),
    ensures
        words_of_le_bytes(b.take(i + 4)) == words_of_le_bytes(b.take(i)).push(
            u32_from_le_bytes(b[i], b[i + 1], b[i + 2], b[i + 3]),
        ),
    decreases i,
{
    if i == 0 {
        assert(b.take(4).skip(4) =~= b.take(0));
        assert(words_of_le_bytes(b.take(4)) =~= words_of_le_bytes(b.take(0)).push(
            u32_from_le_bytes(b[0], b[1], b[2], b[3]),
        ));
    } else {
        lemma_words_take_step(b.skip(4), i - 4);
        assert(b.take(i + 4).skip(4) =~= b.skip(4).take(i));
        assert(b.take(i).skip(4) =~= b.skip(4).take(i - 4));
        assert(words_of_le_bytes(b.take(i + 4)) =~= words_of_le_bytes(b.take(i)).push(
            u32_from_le_bytes(b[i], b[i + 1], b[i + 2], b[i + 3]),
        ));
    }
}

} // verus!
