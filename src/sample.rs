use vstd::prelude::*;

verus! {

/// Length in bytes of the wire encoding of one sample: four 32-bit words.
pub const SAMPLE_BYTES: usize = 16;

/// An orientation sample: the IEEE-754 bit patterns of the four
/// single-precision components of a unit quaternion, in the order
/// x, y, z, w. The library moves samples around without doing arithmetic
/// on them, so it holds them by their bits.
#[derive(Clone, Copy, Debug, PartialEq, Eq, Structural)]
pub struct Sample {
    pub x: u32,
    pub y: u32,
    pub z: u32,
    pub w: u32,
}

/// The 32-bit word whose little-endian bytes are `a`, `b`, `c`, `d`.
pub open spec fn word_of(a: u8, b: u8, c: u8, d: u8) -> u32 {
    (a as u32) | ((b as u32) << 8u32) | ((c as u32) << 16u32) | ((d as u32) << 24u32)
}

/// The four little-endian bytes of a word.
pub open spec fn word_bytes(v: u32) -> Seq<u8> {
    seq![
        (v & 0xff) as u8,
        ((v >> 8u32) & 0xff) as u8,
        ((v >> 16u32) & 0xff) as u8,
        ((v >> 24u32) & 0xff) as u8,
    ]
}

/// The wire encoding of a sample: its four words, little-endian, x first.
pub open spec fn encoded(s: Sample) -> Seq<u8> {
    word_bytes(s.x) + word_bytes(s.y) + word_bytes(s.z) + word_bytes(s.w)
}

/// The sample that a payload carries, if it has the right length.
pub open spec fn decoded(b: Seq<u8>) -> Option<Sample> {
    if b.len() == SAMPLE_BYTES {
        Some(
            Sample {
                x: word_of(b[0], b[1], b[2], b[3]),
                y: word_of(b[4], b[5], b[6], b[7]),
                z: word_of(b[8], b[9], b[10], b[11]),
                w: word_of(b[12], b[13], b[14], b[15]),
            },
        )
    } else {
        None
    }
}

proof fn lemma_word_round_trip(v: u32)
    ensures
        word_of(word_bytes(v)[0], word_bytes(v)[1], word_bytes(v)[2], word_bytes(v)[3]) == v,
{
    assert(((((v) & 0xff) as u8) as u32) | (((((v >> 8u32) & 0xff) as u8) as u32) << 8u32)
        | (((((v >> 16u32) & 0xff) as u8) as u32) << 16u32) | (((((v >> 24u32) & 0xff) as u8) as u32)
        << 24u32) == v) by (bit_vector);
}

/// Decoding the encoding of a sample gives the sample back.
pub proof fn lemma_decode_encode(s: Sample)
    ensures
        decoded(encoded(s)) == Some(s),
{
    lemma_word_round_trip(s.x);
    lemma_word_round_trip(s.y);
    lemma_word_round_trip(s.z);
    lemma_word_round_trip(s.w);
    let e = encoded(s);
    assert(e.len() == SAMPLE_BYTES);
    assert(e[0] == word_bytes(s.x)[0] && e[3] == word_bytes(s.x)[3]);
    assert(e[4] == word_bytes(s.y)[0] && e[7] == word_bytes(s.y)[3]);
    assert(e[8] == word_bytes(s.z)[0] && e[11] == word_bytes(s.z)[3]);
    assert(e[12] == word_bytes(s.w)[0] && e[15] == word_bytes(s.w)[3]);
}

proof fn lemma_bytes_round_trip(a: u8, b: u8, c: u8, d: u8)
    ensures
        word_bytes(word_of(a, b, c, d)) == seq![a, b, c, d],
{
    let v = word_of(a, b, c, d);
    assert(v == (a as u32) | ((b as u32) << 8u32) | ((c as u32) << 16u32) | ((d as u32) << 24u32));
    assert(((v & 0xff) as u8) == a && (((v >> 8u32) & 0xff) as u8) == b && (((v >> 16u32) & 0xff) as u8)
        == c && (((v >> 24u32) & 0xff) as u8) == d) by (bit_vector)
        requires
            v == (a as u32) | ((b as u32) << 8u32) | ((c as u32) << 16u32) | ((d as u32) << 24u32),
    ;
    assert(word_bytes(v) =~= seq![a, b, c, d]);
}

/// A payload that decodes is exactly the encoding of the sample it decodes
/// to: no two well-formed payloads stand for the same sample.
pub proof fn lemma_encode_decode(b: Seq<u8>)
    requires
        decoded(b) is Some,
    ensures
        encoded(decoded(b).unwrap()) == b,
{
    let s = decoded(b).unwrap();
    lemma_bytes_round_trip(b[0], b[1], b[2], b[3]);
    lemma_bytes_round_trip(b[4], b[5], b[6], b[7]);
    lemma_bytes_round_trip(b[8], b[9], b[10], b[11]);
    lemma_bytes_round_trip(b[12], b[13], b[14], b[15]);
    assert(encoded(s) =~= b);
}

fn push_word(out: &mut Vec<u8>, v: u32)
    ensures
        final(out)@ == old(out)@ + word_bytes(v),
{
    out.push(#[verifier::truncate] ((v & 0xff) as u8));
    out.push(#[verifier::truncate] (((v >> 8u32) & 0xff) as u8));
    out.push(#[verifier::truncate] (((v >> 16u32) & 0xff) as u8));
    out.push(#[verifier::truncate] (((v >> 24u32) & 0xff) as u8));
    assert(final(out)@ =~= old(out)@ + word_bytes(v));
}

fn read_word(b: &[u8], i: usize) -> (r: u32)
    requires
        i + 4 <= b@.len(),
    ensures
        r == word_of(b@[i as int], b@[i + 1], b@[i + 2], b@[i + 3]),
{
    (b[i] as u32) | ((b[i + 1] as u32) << 8) | ((b[i + 2] as u32) << 16) | ((b[i + 3] as u32) << 24)
}

impl Sample {
    /// The wire payload of this sample.
    pub fn encode(&self) -> (r: Vec<u8>)
        ensures
            r@ == encoded(*self),
            r@.len() == SAMPLE_BYTES,
    {
        let mut out: Vec<u8> = Vec::new();
        push_word(&mut out, self.x);
        push_word(&mut out, self.y);
        push_word(&mut out, self.z);
        push_word(&mut out, self.w);
        assert(out@ =~= encoded(*self));
        out
    }

    /// Parses a wire payload; `None` for a payload of the wrong length.
    pub fn decode(b: &[u8]) -> (r: Option<Sample>)
        ensures
            r == decoded(b@),
    {
        if b.len() != SAMPLE_BYTES {
            return None;
        }
        Some(
            Sample {
                x: read_word(b, 0),
                y: read_word(b, 4),
                z: read_word(b, 8),
                w: read_word(b, 12),
            },
        )
    }
}

} // verus!
