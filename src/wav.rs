//! Decoding of 16-bit little-endian mono PCM behind a fixed-size header.

use vstd::prelude::*;

verus! {

/// Bytes of container header in front of the samples.
pub const HEADER_LEN: usize = 44;

/// The sample that the little-endian byte pair `(lo, hi)` encodes.
pub open spec fn sample_value(lo: u8, hi: u8) -> i16 {
    let u = lo as int + 256 * hi as int;
    if u >= 32768 {
        (u - 65536) as i16
    } else {
        u as i16
    }
}

/// The samples held by consecutive non-overlapping byte pairs of `body`;
/// a trailing odd byte is not part of any sample.
pub open spec fn decode(body: Seq<u8>) -> Seq<i16> {
    Seq::new(body.len() / 2, |i: int| sample_value(body[2 * i], body[2 * i + 1]))
}

/// The low byte of a sample's two's-complement encoding.
pub open spec fn low_byte(s: i16) -> u8 {
    ((s as int + 65536) % 65536 % 256) as u8
}

/// The high byte of a sample's two's-complement encoding.
pub open spec fn high_byte(s: i16) -> u8 {
    ((s as int + 65536) % 65536 / 256) as u8
}

/// Samples written as little-endian byte pairs, one after the other.
pub open spec fn encode(samples: Seq<i16>) -> Seq<u8> {
    Seq::new(
        2 * samples.len(),
        |j: int|
            if j % 2 == 0 {
                low_byte(samples[j / 2])
            } else {
                high_byte(samples[j / 2])
            },
    )
}

proof fn lemma_sample_bytes(s: i16)
    ensures
        sample_value(low_byte(s), high_byte(s)) == s,
{
    let u = (s as int + 65536) % 65536;
    assert(0 <= u < 65536);
    assert(u == u % 256 + 256 * (u / 256)) by (nonlinear_arith);
    assert(0 <= u / 256 < 256) by (nonlinear_arith)
        requires
            0 <= u < 65536,
    ;
    if s < 0 {
        assert(u == s as int + 65536);
    } else {
        assert(u == s as int);
    }
}

/// Decoding what follows a header of sample bytes gives back exactly the
/// samples that were encoded: as many, and each one unchanged.
pub proof fn lemma_decode_round_trip(header: Seq<u8>, samples: Seq<i16>)
    requires
        header.len() == HEADER_LEN,
    ensures
        decode((header + encode(samples)).subrange(HEADER_LEN as int, HEADER_LEN + 2 * samples.len()))
            == samples,
{
    let body = (header + encode(samples)).subrange(HEADER_LEN as int, HEADER_LEN + 2 * samples.len());
    assert(body =~= encode(samples));
    assert forall|i: int| 0 <= i < samples.len() implies #[trigger] decode(body)[i] == samples[i] by {
        assert((2 * i) % 2 == 0 && (2 * i) / 2 == i);
        assert((2 * i + 1) % 2 == 1 && (2 * i + 1) / 2 == i);
        lemma_sample_bytes(samples[i]);
    }
    assert(decode(body) =~= samples);
}

/// Reads one sample from its two little-endian bytes.
pub fn sample_from_le(lo: u8, hi: u8) -> (r: i16)
    ensures
        r == sample_value(lo, hi),
{
    let u: u16 = lo as u16 + (hi as u16) * 256;
    if u >= 32768 {
        (u as i32 - 65536) as i16
    } else {
        u as i16
    }
}


/// Why a buffer cannot be read as 16-bit mono PCM.
#[derive(Debug, Clone, Copy, PartialEq, Eq, Structural)]
pub enum WavError {
    /// The buffer ends before the header does.
    TooShort,
    /// What follows the header is not a whole number of samples.
    OddLength,
}

/// A PCM buffer of 16-bit little-endian mono samples, header already skipped.
pub struct Wav16<'a>(&'a [u8]);

impl<'a> Wav16<'a> {
    /// The sample bytes, after the header.
    pub closed spec fn body(&self) -> Seq<u8> {
        self.0@
    }

    /// The samples of the buffer, in order.
    pub open spec fn samples(&self) -> Seq<i16> {
        decode(self.body())
    }

    /// Wraps raw file data, skipping its header.
    pub fn new(data: &'a [u8]) -> (r: Self)
        requires
            data@.len() >= HEADER_LEN,
        ensures
            r.body() == data@.subrange(HEADER_LEN as int, data@.len() as int),
    {
        Wav16(slice_from(data, HEADER_LEN))
    }

    /// Wraps raw file data, rejecting a buffer shorter than the header or
    /// whose remainder is not a whole number of samples.
    pub fn parse(data: &'a [u8]) -> (r: Result<Self, WavError>)
        ensures
            data@.len() < HEADER_LEN ==> r == Err::<Self, WavError>(WavError::TooShort),
            data@.len() >= HEADER_LEN && (data@.len() - HEADER_LEN) % 2 != 0 ==> r
                == Err::<Self, WavError>(WavError::OddLength),
            data@.len() >= HEADER_LEN && (data@.len() - HEADER_LEN) % 2 == 0 ==> r is Ok
                && r->Ok_0.body() == data@.subrange(HEADER_LEN as int, data@.len() as int),
    {
        if data.len() < HEADER_LEN {
            Err(WavError::TooShort)
        } else if (data.len() - HEADER_LEN) % 2 != 0 {
            Err(WavError::OddLength)
        } else {
            Ok(Self::new(data))
        }
    }

    /// Number of whole samples in the buffer.
    pub fn len(&self) -> (r: usize)
        ensures
            r == self.samples().len(),
    {
        self.0.len() / 2
    }

    /// A cursor over every sample, from the first.
    pub fn stream(&'a self) -> (r: Samples<'a>)
        ensures
            r.samples() == self.samples(),
            r.position() == 0,
    {
        Samples { body: self.0, pos: 0 }
    }
}

/// The bytes of `data` from index `start` on.
fn slice_from(data: &[u8], start: usize) -> (r: &[u8])
    requires
        start <= data@.len(),
    ensures
        r@ == data@.subrange(start as int, data@.len() as int),
{
    let (_, tail) = data.split_at(start);
    tail
}

/// A restartable cursor over the samples of a PCM body.
pub struct Samples<'a> {
    body: &'a [u8],
    pos: usize,
}

impl<'a> Samples<'a> {
    /// The samples that the cursor walks over.
    pub closed spec fn samples(&self) -> Seq<i16> {
        decode(self.body@)
    }

    /// Index of the sample that `next` hands out.
    pub closed spec fn position(&self) -> nat {
        self.pos as nat
    }

    /// Number of samples the cursor walks over.
    pub fn len(&self) -> (r: usize)
        ensures
            r == self.samples().len(),
    {
        self.body.len() / 2
    }

    /// Hands out the sample at the cursor and moves past it; `None` once every
    /// sample has been handed out.
    pub fn next(&mut self) -> (r: Option<i16>)
        ensures
            final(self).samples() == old(self).samples(),
            old(self).position() < old(self).samples().len() ==> r == Some(
                old(self).samples()[old(self).position() as int],
            ) && final(self).position() == old(self).position() + 1,
            old(self).position() >= old(self).samples().len() ==> r is None
                && final(self).position() == old(self).position(),
    {
        let n: usize = self.body.len() / 2;
        if self.pos < n {
            let i: usize = self.pos;
            let s = sample_from_le(self.body[2 * i], self.body[2 * i + 1]);
            self.pos = i + 1;
            Some(s)
        } else {
            None
        }
    }

    /// Moves the cursor back to the first sample.
    pub fn restart(&mut self)
        ensures
            final(self).samples() == old(self).samples(),
            final(self).position() == 0,
    {
        self.pos = 0;
    }
}

} // verus!
