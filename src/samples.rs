//! Conversion of 16-bit PCM samples to the byte stream handed to a recognizer.
//!
//! Each sample is laid out little-endian: low byte first, then high byte.
use vstd::prelude::*;

verus! {

/// Low byte of a sample.
pub open spec fn low_byte(x: i16) -> u8 {
    ((x as u16) % 256) as u8
}

/// High byte of a sample.
pub open spec fn high_byte(x: i16) -> u8 {
    ((x as u16) / 256) as u8
}

/// The sample whose little-endian bytes are `lo`, `hi`.
pub open spec fn sample_of(lo: u8, hi: u8) -> i16 {
    ((hi as u16) * 256 + (lo as u16)) as i16
}

/// Little-endian byte image of a sample sequence: two bytes per sample.
pub open spec fn sample_bytes(s: Seq<i16>) -> Seq<u8> {
    Seq::new(
        2 * s.len(),
        |k: int|
            if k % 2 == 0 {
                low_byte(s[k / 2])
            } else {
                high_byte(s[k / 2])
            },
    )
}

/// Samples read back from a byte image: byte pairs, low byte first.
pub open spec fn bytes_samples(b: Seq<u8>) -> Seq<i16> {
    Seq::new(b.len() / 2, |i: int| sample_of(b[i + i], b[i + i + 1]))
}

/// Splitting a sample into its two bytes and joining them gives it back.
pub proof fn lemma_sample_bytes_join(x: i16)
    ensures
        sample_of(low_byte(x), high_byte(x)) == x,
{
    assert(((((x as u16) / 256) as u8) as u16) * 256 + ((((x as u16) % 256) as u8) as u16) == (
    x as u16)) by (bit_vector);
    assert(((x as u16) as i16) == x) by (bit_vector);
}

/// Reinterpreting samples as bytes yields exactly two bytes per sample, and
/// reading samples back from those bytes reproduces every sample.
pub proof fn lemma_bytes_round_trip(s: Seq<i16>)
    ensures
        sample_bytes(s).len() == 2 * s.len(),
        bytes_samples(sample_bytes(s)) == s,
{
    let b = sample_bytes(s);
    assert forall|i: int| 0 <= i < s.len() implies #[trigger] bytes_samples(b)[i] == s[i] by {
        assert((2 * i) % 2 == 0);
        assert((2 * i + 1) % 2 == 1);
        assert((2 * i) / 2 == i);
        assert((2 * i + 1) / 2 == i);
        lemma_sample_bytes_join(s[i]);
    }
    assert(bytes_samples(b) =~= s);
}

/// The little-endian byte image of `samples`.
pub fn samples_to_bytes(samples: &[i16]) -> (r: Vec<u8>)
    requires
        2 * samples@.len() <= usize::MAX,
    ensures
        r@ == sample_bytes(samples@),
{
    let n = samples.len();
    let mut out: Vec<u8> = Vec::with_capacity(2 * n);
    let mut i: usize = 0;
    while i < n
        invariant
            n == samples@.len(),
            i <= n,
            out@.len() == 2 * i,
            forall|k: int| 0 <= k < 2 * i ==> #[trigger] out@[k] == sample_bytes(samples@)[k],
        decreases n - i,
    {
        let u: u16 = #[verifier::truncate] (samples[i] as u16);
        out.push((u % 256) as u8);
        out.push((u / 256) as u8);
        proof {
            assert((2 * i as int) % 2 == 0);
            assert((2 * i as int + 1) % 2 == 1);
            assert((2 * i as int) / 2 == i);
            assert((2 * i as int + 1) / 2 == i);
        }
        i = i + 1;
    }
    assert(out@ =~= sample_bytes(samples@));
    out
}

/// Samples read back from a little-endian byte image; a trailing odd byte is
/// ignored.
pub fn bytes_to_samples(bytes: &[u8]) -> (r: Vec<i16>)
    ensures
        r@ == bytes_samples(bytes@),
{
    let len = bytes.len();
    let n = len / 2;
    let mut out: Vec<i16> = Vec::with_capacity(n);
    let mut i: usize = 0;
    while i < n
        invariant
            len == bytes@.len(),
            n == len / 2,
            i <= n,
            out@.len() == i,
            forall|k: int| 0 <= k < i ==> #[trigger] out@[k] == bytes_samples(bytes@)[k],
        decreases n - i,
    {
        assert(2 * i + 1 < bytes@.len());
        let j: usize = i + i;
        let lo = bytes[j];
        let hi = bytes[j + 1];
        let v: i16 = #[verifier::truncate] (((hi as u16) * 256 + (lo as u16)) as i16);
        out.push(v);
        i = i + 1;
    }
    assert(out@ =~= bytes_samples(bytes@));
    out
}

} // verus!
