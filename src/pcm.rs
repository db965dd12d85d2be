//! PCM16 sample handling: little-endian decoding, framing, and the
//! requantization applied when buffered audio is written back out.
//!
//! A float sample in the range [-1.0, 1.0) is produced from a PCM16 value `v`
//! as `v / 32768`; this module holds such samples as the integer `v`.
use vstd::prelude::*;

verus! {

/// Sample rate of every session, in Hz.
pub const SAMPLE_RATE: u64 = 16000;

/// Samples in one classifier frame: 30 ms at 16 kHz.
pub const FRAME_SAMPLES: usize = 480;

/// The signed 16-bit value whose little-endian bytes are `lo`, `hi`.
pub open spec fn le_value(lo: u8, hi: u8) -> int {
    let u = lo as int + 256 * (hi as int);
    if u >= 32768 {
        u - 65536
    } else {
        u
    }
}

/// The samples held by a little-endian PCM16 byte stream; a trailing odd
/// byte is not part of any sample.
pub open spec fn decoded(bytes: Seq<u8>) -> Seq<i16> {
    Seq::new(bytes.len() / 2, |i: int| le_value(bytes[2 * i], bytes[2 * i + 1]) as i16)
}

/// `x` divided by `d`, rounded to the nearest integer, halves away from zero.
pub open spec fn div_round(x: int, d: int) -> int
    recommends
        d > 0,
{
    if x >= 0 {
        (x + d / 2) / d
    } else {
        -((-x + d / 2) / d)
    }
}

/// The PCM16 value written for the float sample `v / 32768`:
/// `round(clamp(v / 32768, -1, 1) * 32767)`.
pub open spec fn requantized(v: int) -> int {
    div_round(v * 32767, 32768)
}

/// Low byte of the two's-complement encoding of a 16-bit value.
pub open spec fn low_byte(v: int) -> u8 {
    (if v < 0 {
        v + 65536
    } else {
        v
    } % 256) as u8
}

/// High byte of the two's-complement encoding of a 16-bit value.
pub open spec fn high_byte(v: int) -> u8 {
    (if v < 0 {
        v + 65536
    } else {
        v
    } / 256) as u8
}

/// The little-endian PCM16 bytes written for buffered samples: each sample
/// requantized, low byte first.
pub open spec fn encoded(samples: Seq<i16>) -> Seq<u8> {
    Seq::new(
        2 * samples.len(),
        |j: int|
            if j % 2 == 0 {
                low_byte(requantized(samples[j / 2] as int))
            } else {
                high_byte(requantized(samples[j / 2] as int))
            },
    )
}

/// The whole classifier frames of a sample stream, in order; samples past the
/// last whole frame are dropped.
pub open spec fn framed(samples: Seq<i16>) -> Seq<Seq<i16>> {
    Seq::new(
        samples.len() / (FRAME_SAMPLES as nat),
        |i: int| samples.subrange(i * FRAME_SAMPLES, i * FRAME_SAMPLES + FRAME_SAMPLES),
    )
}

/// Duration in whole milliseconds of `n` samples at the session rate.
pub open spec fn duration_ms(n: nat) -> int {
    (n * 1000) as int / (SAMPLE_RATE as int)
}

/// The sample encoded by one little-endian byte pair.
pub fn sample_from_le(lo: u8, hi: u8) -> (r: i16)
    ensures
        r as int == le_value(lo, hi),
{
    let u: i32 = lo as i32 + 256 * (hi as i32);
    if u >= 32768 {
        (u - 65536) as i16
    } else {
        u as i16
    }
}

/// Converts little-endian PCM16 bytes to samples; an odd trailing byte is
/// ignored.
pub fn bytes_to_samples(bytes: &Vec<u8>) -> (r: Vec<i16>)
    ensures
        r@ == decoded(bytes@),
{
    let n: usize = bytes.len() / 2;
    let mut out: Vec<i16> = Vec::with_capacity(n);
    let mut i: usize = 0;
    while i < n
        invariant
            n == bytes@.len() / 2,
            bytes@.len() == bytes.len(),
            i <= n,
            out@ =~= decoded(bytes@).subrange(0, i as int),
        decreases n - i,
    {
        proof {
            assert(2 * i + 1 < bytes@.len()) by (nonlinear_arith)
                requires
                    i < n,
                    n == bytes@.len() / 2,
            ;
        }
        let s = sample_from_le(bytes[2 * i], bytes[2 * i + 1]);
        out.push(s);
        i = i + 1;
    }
    out
}

/// The PCM16 value written for the float sample `v / 32768`.
pub fn requantize(v: i16) -> (r: i16)
    ensures
        r as int == requantized(v as int),
{
    let x: i32 = (v as i32) * 32767;
    let q: i32 = if x >= 0 {
        (x + 16384) / 32768
    } else {
        -((-x + 16384) / 32768)
    };
    proof {
        lemma_requantized_close(v as int);
    }
    q as i16
}

/// Requantizing moves a sample by at most one step, towards zero, and leaves
/// every value in [-16384, 16384] unchanged.
pub proof fn lemma_requantized_close(v: int)
    requires
        -32768 <= v <= 32767,
    ensures
        requantized(v) == if v > 16384 {
            v - 1
        } else if v < -16384 {
            v + 1
        } else {
            v
        },
{
    if v >= 0 {
        assert((v * 32767 + 16384) == v * 32768 + (16384 - v)) by (nonlinear_arith);
        if v > 16384 {
            assert((v * 32768 + (16384 - v)) / 32768 == v - 1) by (nonlinear_arith)
                requires
                    16384 < v <= 32767,
            ;
        } else {
            assert((v * 32768 + (16384 - v)) / 32768 == v) by (nonlinear_arith)
                requires
                    0 <= v <= 16384,
            ;
        }
    } else {
        let w = -v;
        assert(-(v * 32767) == w * 32767) by (nonlinear_arith)
            requires
                w == -v,
        ;
        assert((w * 32767 + 16384) == w * 32768 + (16384 - w)) by (nonlinear_arith);
        if w > 16384 {
            assert((w * 32768 + (16384 - w)) / 32768 == w - 1) by (nonlinear_arith)
                requires
                    16384 < w <= 32768,
            ;
        } else {
            assert((w * 32768 + (16384 - w)) / 32768 == w) by (nonlinear_arith)
                requires
                    0 < w <= 16384,
            ;
        }
    }
}

/// Converting a PCM16 value to a float sample and back gives the value again,
/// up to one step.
pub proof fn lemma_pcm_round_trip(v: i16)
    ensures
        -1 <= requantized(v as int) - v <= 1,
{
    lemma_requantized_close(v as int);
}

/// Writes buffered samples as little-endian PCM16 bytes, requantizing each.
pub fn samples_to_pcm16_bytes(samples: &Vec<i16>) -> (r: Vec<u8>)
    ensures
        r@ == encoded(samples@),
{
    let mut out: Vec<u8> = Vec::new();
    let mut i: usize = 0;
    while i < samples.len()
        invariant
            i <= samples@.len(),
            out@.len() == 2 * i,
            forall|j: int| 0 <= j < 2 * i ==> #[trigger] out@[j] == encoded(samples@)[j],
        decreases samples.len() - i,
    {
        let q = requantize(samples[i]);
        let u: i32 = if q < 0 {
            q as i32 + 65536
        } else {
            q as i32
        };
        let lo = (u % 256) as u8;
        let hi = (u / 256) as u8;
        out.push(lo);
        out.push(hi);
        proof {
            assert((2 * i) / 2 == i as int);
            assert((2 * i + 1) / 2 == i as int);
        }
        i = i + 1;
    }
    assert(out@ =~= encoded(samples@));
    out
}

/// Splits samples into whole classifier frames; a short tail is dropped, never
/// padded.
pub fn split_frames(samples: &Vec<i16>) -> (r: Vec<Vec<i16>>)
    ensures
        r@.len() == framed(samples@).len(),
        forall|i: int| 0 <= i < r@.len() ==> #[trigger] r@[i]@ == framed(samples@)[i],
{
    let n: usize = samples.len() / FRAME_SAMPLES;
    let mut out: Vec<Vec<i16>> = Vec::with_capacity(n);
    let mut i: usize = 0;
    while i < n
        invariant
            n == samples@.len() / (FRAME_SAMPLES as nat),
            samples@.len() == samples.len(),
            i <= n,
            out@.len() == i,
            forall|k: int| 0 <= k < i ==> #[trigger] out@[k]@ == framed(samples@)[k],
        decreases n - i,
    {
        proof {
            assert(i * FRAME_SAMPLES + FRAME_SAMPLES <= samples@.len()) by (nonlinear_arith)
                requires
                    i < n,
                    n == samples@.len() / 480,
                    FRAME_SAMPLES == 480,
            ;
        }
        let start: usize = i * FRAME_SAMPLES;
        let mut frame: Vec<i16> = Vec::with_capacity(FRAME_SAMPLES);
        let mut j: usize = 0;
        while j < FRAME_SAMPLES
            invariant
                i < n,
                n == samples@.len() / (FRAME_SAMPLES as nat),
                start == i * FRAME_SAMPLES,
                start + FRAME_SAMPLES <= samples@.len(),
                samples@.len() == samples.len(),
                j <= FRAME_SAMPLES,
                frame@ =~= samples@.subrange(start as int, start + j),
            decreases FRAME_SAMPLES - j,
        {
            frame.push(samples[start + j]);
            j = j + 1;
        }
        out.push(frame);
        i = i + 1;
    }
    out
}

} // verus!
