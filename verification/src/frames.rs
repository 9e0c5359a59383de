//! Frame partitioning of the full-buffer analysis.
//!
//! The aggregator cuts the signal into `frame_rate` frames per second of
//! `sample_rate / frame_rate` samples each, always yielding at least one
//! frame, and zero-pads any frame shorter than the fixed transform size so
//! that every frame produces an output row.

use vstd::prelude::*;
use vstd::arithmetic::div_mod::lemma_fundamental_div_mod;

verus! {

/// Transform size of the per-frame band spectrum.
pub const FRAME_FFT_SIZE: usize = 2048;

/// Samples each output frame covers.
pub fn samples_per_frame(sample_rate: u32, frame_rate: u32) -> (r: usize)
    requires
        1 <= frame_rate,
    ensures
        r == sample_rate as int / frame_rate as int,
{
    (sample_rate / frame_rate) as usize
}

/// How many frames a signal of `len` samples yields: one frame per full
/// `spf` samples, and at least one even for a short signal.
pub fn num_frames(len: usize, spf: usize) -> (r: usize)
    requires
        1 <= spf,
    ensures
        r == vstd::math::max(len as int / spf as int, 1),
        r >= 1,
{
    let q = len / spf;
    if q == 0 {
        1
    } else {
        q
    }
}

/// Sample bounds `[start, end)` of frame `i`: `spf` samples from `i * spf`,
/// clipped to the signal's end.
pub fn frame_bounds(i: usize, spf: usize, len: usize) -> (r: (usize, usize))
    requires
        1 <= spf,
        i < vstd::math::max(len as int / spf as int, 1),
    ensures
        r.0 == i * spf,
        r.1 == vstd::math::min(i * spf + spf, len as int),
        r.0 <= r.1 <= len,
{
    proof {
        let q = len as int / spf as int;
        if i > 0 {
            lemma_fundamental_div_mod(len as int, spf as int);
            assert(i * spf <= (q - 1) * spf) by (nonlinear_arith)
                requires i <= q - 1, spf >= 1;
            assert((q - 1) * spf == q * spf - spf) by (nonlinear_arith);
            assert(q * spf <= len) by (nonlinear_arith)
                requires
                    len as int == (spf as int) * q + len as int % (spf as int),
                    len as int % (spf as int) >= 0,
            ;
        } else {
            assert(i * spf == 0) by (nonlinear_arith)
                requires i == 0;
        }
    }
    let start = i * spf;
    let end = if len - start >= spf {
        start + spf
    } else {
        len
    };
    (start, end)
}

/// Frames partition the signal's prefix without gap or overlap: every frame
/// but the last covers exactly `spf` samples and ends where its successor
/// begins.
pub proof fn lemma_frames_partition(i: int, spf: int, len: int)
    requires
        1 <= spf,
        0 <= len,
        0 <= i,
        i + 1 < vstd::math::max(len / spf, 1),
    ensures
        vstd::math::min(i * spf + spf, len) == (i + 1) * spf,
{
    let q = len / spf;
    lemma_fundamental_div_mod(len, spf);
    assert((i + 1) * spf <= (q - 1) * spf) by (nonlinear_arith)
        requires i + 1 <= q - 1, spf >= 1;
    assert((q - 1) * spf <= q * spf - spf) by (nonlinear_arith);
    assert(q * spf <= len) by (nonlinear_arith)
        requires len == spf * q + len % spf, len % spf >= 0;
    assert((i + 1) * spf == i * spf + spf) by (nonlinear_arith);
}

/// Whether a frame is shorter than the transform and must be zero-padded on
/// the right before analysis.
pub fn needs_padding(frame_len: usize) -> (r: bool)
    ensures
        r == (frame_len < FRAME_FFT_SIZE),
{
    frame_len < FRAME_FFT_SIZE
}

} // verus!
