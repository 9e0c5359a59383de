//! Windowing and peak-selection rules of the energy-based onset detector.
//!
//! The detector slides a fixed transform over the signal with a fixed hop,
//! sums bass-range energy per window, and accepts a window as a beat when it
//! is a strict local peak above the local average and far enough after the
//! previous accepted beat. The numeric energy computation lives outside the
//! verified core; this module fixes the window arithmetic, the bass bin
//! range, and the greedy minimum-spacing selection over candidate flags.

use vstd::prelude::*;
use vstd::arithmetic::div_mod::{
    lemma_div_is_ordered, lemma_fundamental_div_mod, lemma_fundamental_div_mod_converse_div,
};

verus! {

/// Transform size of every onset-detection window.
pub const ONSET_FFT_SIZE: usize = 1024;

/// Hop between consecutive onset-detection windows.
pub const ONSET_HOP: usize = 512;

/// Radius, in windows, of the neighbourhood the local average is taken over.
pub const ONSET_AVG_RADIUS: usize = 8;

/// How many onset windows a signal of `len` samples yields.
///
/// Each window `i` covers samples `i * ONSET_HOP .. i * ONSET_HOP +
/// ONSET_FFT_SIZE`, and the count is exactly large enough that every window
/// stays inside the signal.
pub fn num_windows(len: usize) -> (r: usize)
    requires
        len >= ONSET_FFT_SIZE,
    ensures
        r == (len - ONSET_FFT_SIZE) / (ONSET_HOP as int) + 1,
        r >= 1,
        forall|i: int|
            0 <= i < r ==> #[trigger] (i * ONSET_HOP) + ONSET_FFT_SIZE <= len,
{
    let r = (len - ONSET_FFT_SIZE) / ONSET_HOP + 1;
    proof {
        let q = (len - ONSET_FFT_SIZE) / (ONSET_HOP as int);
        lemma_fundamental_div_mod(len - ONSET_FFT_SIZE, ONSET_HOP as int);
        assert forall|i: int| 0 <= i < r implies #[trigger] (i * ONSET_HOP) + ONSET_FFT_SIZE
            <= len by {
            assert(i * ONSET_HOP <= q * ONSET_HOP) by (nonlinear_arith)
                requires i <= q;
            assert(q * ONSET_HOP <= len - ONSET_FFT_SIZE) by (nonlinear_arith)
                requires
                    len - ONSET_FFT_SIZE == (ONSET_HOP as int) * q + (len - ONSET_FFT_SIZE) % (
                    ONSET_HOP as int),
                    (len - ONSET_FFT_SIZE) % (ONSET_HOP as int) >= 0,
            ;
        };
    }
    r
}

/// Bounds of the neighbourhood the local average of window `i` is taken
/// over: `ONSET_AVG_RADIUS` windows to each side, clipped to the signal.
pub fn avg_bounds(i: usize, len: usize) -> (r: (usize, usize))
    requires
        i < len,
    ensures
        r.0 == (if i >= ONSET_AVG_RADIUS { i - ONSET_AVG_RADIUS } else { 0int }),
        r.1 == (if i + ONSET_AVG_RADIUS + 1 <= len { i + ONSET_AVG_RADIUS + 1 } else { len as int }),
        r.0 <= i < r.1 <= len,
{
    let start = if i >= ONSET_AVG_RADIUS {
        i - ONSET_AVG_RADIUS
    } else {
        0
    };
    let end = if len - i > ONSET_AVG_RADIUS {
        i + ONSET_AVG_RADIUS + 1
    } else {
        len
    };
    (start, end)
}

/// Minimum spacing between accepted beats, in windows: 200 ms of hops.
pub fn min_beat_spacing(sample_rate: u32) -> (r: usize)
    ensures
        r == sample_rate as nat / (5 * ONSET_HOP as nat),
{
    (sample_rate / (5 * ONSET_HOP as u32)) as usize
}

/// The spectrum bin nearest to `freq` Hz: `freq * fft_size / sample_rate`,
/// rounded half up.
pub fn freq_to_bin_hz(freq: u32, fft_size: usize, sample_rate: u32) -> (r: usize)
    requires
        1 <= sample_rate,
        freq <= sample_rate,
        fft_size <= 0x4000_0000,
    ensures
        r == (2 * freq * fft_size + sample_rate) as int / (2 * sample_rate as int),
        r <= fft_size,
{
    proof {
        assert(2 * (freq as int) * (fft_size as int) + sample_rate <= u64::MAX) by (nonlinear_arith)
            requires
                freq <= u32::MAX,
                sample_rate <= u32::MAX,
                fft_size <= 0x4000_0000,
        ;
    }
    let num: u64 = 2u64 * (freq as u64) * (fft_size as u64) + (sample_rate as u64);
    let den: u64 = 2u64 * (sample_rate as u64);
    proof {
        let f = freq as int;
        let n = fft_size as int;
        let s = sample_rate as int;
        assert(2 * f * n + s <= 2 * s * n + s) by (nonlinear_arith)
            requires f <= s, n >= 0;
        assert(2 * s * n + s == n * (2 * s) + s) by (nonlinear_arith);
        lemma_fundamental_div_mod_converse_div(2 * s * n + s, 2 * s, n, s);
        lemma_div_is_ordered(2 * f * n + s, 2 * s * n + s, 2 * s);
        vstd::arithmetic::div_mod::lemma_div_pos_is_pos(2 * f * n + s, 2 * s);
    }
    (num / den) as usize
}

/// The bin range `[low, high)` of the bass band (20 Hz to 200 Hz), both
/// bounds clipped to the spectrum's length.
pub fn bass_bin_range(fft_size: usize, sample_rate: u32) -> (r: (usize, usize))
    requires
        200 <= sample_rate,
        2 <= fft_size <= 0x4000_0000,
    ensures
        r.0 == vstd::math::min(
            (2 * 20 * fft_size + sample_rate) as int / (2 * sample_rate as int),
            fft_size as int / 2,
        ),
        r.1 == vstd::math::min(
            (2 * 200 * fft_size + sample_rate) as int / (2 * sample_rate as int),
            fft_size as int / 2,
        ),
        r.0 <= r.1 <= fft_size / 2,
{
    let num_bins = fft_size / 2;
    let low_raw = freq_to_bin_hz(20, fft_size, sample_rate);
    let high_raw = freq_to_bin_hz(200, fft_size, sample_rate);
    proof {
        let n = fft_size as int;
        let s = sample_rate as int;
        assert(2 * 20 * n + s <= 2 * 200 * n + s) by (nonlinear_arith)
            requires n >= 0;
        lemma_div_is_ordered(2 * 20 * n + s, 2 * 200 * n + s, 2 * s);
    }
    let low = if low_raw < num_bins {
        low_raw
    } else {
        num_bins
    };
    let high = if high_raw < num_bins {
        high_raw
    } else {
        num_bins
    };
    (low, high)
}

/// The indices the greedy minimum-spacing selection accepts, scanning
/// candidates from `i` upward with `last` the index of the most recently
/// accepted candidate (or `-spacing` when none has been accepted yet).
/// Interior indices only: the first and last window can never be strict
/// local peaks.
pub open spec fn spec_select_from(c: Seq<bool>, spacing: nat, i: int, last: int) -> Seq<usize>
    decreases c.len() - i,
{
    if i < 1 || i >= c.len() - 1 {
        Seq::empty()
    } else if c[i] && i - last >= spacing {
        seq![i as usize] + spec_select_from(c, spacing, i + 1, i)
    } else {
        spec_select_from(c, spacing, i + 1, last)
    }
}

/// The beat indices selected from a full candidate sequence.
pub open spec fn spec_select_beats(c: Seq<bool>, spacing: nat) -> Seq<usize> {
    spec_select_from(c, spacing, 1, -(spacing as int))
}

proof fn lemma_select_from_props(c: Seq<bool>, spacing: nat, i: int, last: int)
    requires
        c.len() <= usize::MAX,
    ensures
        ({
            let res = spec_select_from(c, spacing, i, last);
            &&& forall|k: int|
                0 <= k < res.len() ==> i <= #[trigger] res[k] && res[k] < c.len() - 1
                    && 1 <= res[k] && c[res[k] as int]
            &&& forall|k: int|
                1 <= k < res.len() ==> res[k] - #[trigger] res[k - 1] >= spacing && res[k - 1]
                    < res[k]
            &&& res.len() > 0 ==> res[0] - last >= spacing
        }),
    decreases c.len() - i,
{
    if i < 1 || i >= c.len() - 1 {
    } else if c[i] && i - last >= spacing {
        lemma_select_from_props(c, spacing, i + 1, i);
        let res = spec_select_from(c, spacing, i, last);
        let tail = spec_select_from(c, spacing, i + 1, i);
        assert(res == seq![i as usize] + tail);
        assert(res[0] == i as usize);
        assert forall|k: int|
            0 <= k < res.len() implies i <= #[trigger] res[k] && res[k] < c.len() - 1 && 1
            <= res[k] && c[res[k] as int] by {
            if k > 0 {
                assert(res[k] == tail[k - 1]);
            }
        };
        assert forall|k: int| 1 <= k < res.len() implies res[k] - #[trigger] res[k - 1] >= spacing
            && res[k - 1] < res[k] by {
            assert(res[k] == tail[k - 1]);
            if k >= 2 {
                assert(res[k - 1] == tail[k - 2]);
            } else {
                assert(tail[0] - i >= spacing);
            }
        };
    } else {
        lemma_select_from_props(c, spacing, i + 1, last);
    }
}

/// Whether `v` occurs in `s`.
pub open spec fn seq_has(s: Seq<usize>, v: int) -> bool {
    exists|k: int| 0 <= k < s.len() && s[k] == v
}

proof fn lemma_select_from_complete(c: Seq<bool>, spacing: nat, i: int, last: int)
    requires
        c.len() <= usize::MAX,
        1 <= i,
    ensures
        ({
            let res = spec_select_from(c, spacing, i, last);
            forall|j: int|
                i <= j < c.len() - 1 && 1 <= j && #[trigger] c[j] && !seq_has(res, j) ==> j - last
                    < spacing || exists|k: int|
                    0 <= k < res.len() && #[trigger] res[k] < j && j - res[k] < spacing
        }),
    decreases c.len() - i,
{
    if i < 1 || i >= c.len() - 1 {
    } else {
        let res = spec_select_from(c, spacing, i, last);
        if c[i] && i - last >= spacing {
            let tail = spec_select_from(c, spacing, i + 1, i);
            lemma_select_from_complete(c, spacing, i + 1, i);
            assert(res == seq![i as usize] + tail);
            assert(res[0] == i as usize);
            assert forall|j: int|
                i <= j < c.len() - 1 && 1 <= j && #[trigger] c[j] && !seq_has(res, j) implies j
                - last < spacing || exists|k: int|
                0 <= k < res.len() && #[trigger] res[k] < j && j - res[k] < spacing by {
                if j == i {
                    assert(res[0] == j);
                    assert(seq_has(res, j));
                } else {
                    assert(!seq_has(tail, j)) by {
                        if seq_has(tail, j) {
                            let k = choose|k: int| 0 <= k < tail.len() && tail[k] == j;
                            assert(res[k + 1] == tail[k]);
                            assert(seq_has(res, j));
                        }
                    };
                    if j - i < spacing {
                        assert(res[0] < j && j - res[0] < spacing);
                    } else {
                        let k = choose|k: int|
                            0 <= k < tail.len() && tail[k] < j && j - tail[k] < spacing;
                        assert(res[k + 1] == tail[k]);
                        assert(res[k + 1] < j && j - res[k + 1] < spacing);
                    }
                }
            };
        } else {
            lemma_select_from_complete(c, spacing, i + 1, last);
            let rest = spec_select_from(c, spacing, i + 1, last);
            assert(res == rest);
            assert forall|j: int|
                i <= j < c.len() - 1 && 1 <= j && #[trigger] c[j] && !seq_has(res, j) implies j
                - last < spacing || exists|k: int|
                0 <= k < res.len() && #[trigger] res[k] < j && j - res[k] < spacing by {
                if j == i {
                    assert(!(c[i] && i - last >= spacing));
                    assert(j - last < spacing);
                }
            };
        }
    }
}

proof fn lemma_select_from_none(c: Seq<bool>, spacing: nat, i: int, last: int)
    requires
        forall|j: int| i <= j < c.len() - 1 ==> !c[j],
    ensures
        spec_select_from(c, spacing, i, last) == Seq::<usize>::empty(),
    decreases c.len() - i,
{
    if i < 1 || i >= c.len() - 1 {
    } else {
        lemma_select_from_none(c, spacing, i + 1, last);
    }
}

/// The invariant of every beat record: selected indices are strictly
/// ascending and never closer than the configured minimum spacing, each lies
/// strictly inside the window range, and each was a candidate peak.
pub proof fn lemma_beat_spacing(c: Seq<bool>, spacing: nat)
    requires
        c.len() <= usize::MAX,
    ensures
        ({
            let res = spec_select_beats(c, spacing);
            &&& forall|k: int|
                0 <= k < res.len() ==> 1 <= #[trigger] res[k] && res[k] < c.len() - 1
                    && c[res[k] as int]
            &&& forall|k: int|
                1 <= k < res.len() ==> res[k] - #[trigger] res[k - 1] >= spacing && res[k - 1]
                    < res[k]
        }),
{
    lemma_select_from_props(c, spacing, 1, -(spacing as int));
}

/// No candidate is passed over without cause: every candidate window the
/// selection rejects lies less than the minimum spacing after an accepted
/// beat. Together with `lemma_beat_spacing` this characterizes the greedy
/// selection exactly.
pub proof fn lemma_beat_completeness(c: Seq<bool>, spacing: nat)
    requires
        c.len() <= usize::MAX,
    ensures
        ({
            let res = spec_select_beats(c, spacing);
            forall|j: int|
                1 <= j < c.len() - 1 && #[trigger] c[j] && !seq_has(res, j) ==> exists|k: int|
                    0 <= k < res.len() && #[trigger] res[k] < j && j - res[k] < spacing
        }),
{
    lemma_select_from_complete(c, spacing, 1, -(spacing as int));
    let res = spec_select_beats(c, spacing);
    assert forall|j: int|
        1 <= j < c.len() - 1 && #[trigger] c[j] && !seq_has(res, j) implies exists|k: int|
        0 <= k < res.len() && #[trigger] res[k] < j && j - res[k] < spacing by {
        // nothing has been accepted yet at the start, and the virtual
        // predecessor lies a full spacing before the first window
        assert(!(j - (-(spacing as int)) < spacing));
    };
}

/// A signal with no candidate peaks yields no beats at all.
pub proof fn lemma_no_candidates_no_beats(c: Seq<bool>, spacing: nat)
    requires
        forall|j: int| 1 <= j < c.len() - 1 ==> !c[j],
    ensures
        spec_select_beats(c, spacing) == Seq::<usize>::empty(),
{
    lemma_select_from_none(c, spacing, 1, -(spacing as int));
}

/// Greedy minimum-spacing selection over candidate flags.
///
/// A window index is accepted exactly when its flag is set and it lies at
/// least `min_spacing` windows after the previously accepted index; the
/// first and last window are never considered.
pub fn select_beats(candidate: &Vec<bool>, min_spacing: usize) -> (beats: Vec<usize>)
    ensures
        beats@ == spec_select_beats(candidate@, min_spacing as nat),
{
    let n = candidate.len();
    let mut beats: Vec<usize> = Vec::new();
    if n < 2 {
        return beats;
    }
    let mut accepted: Option<usize> = None;
    let ghost mut glast: int = -(min_spacing as int);
    let mut i: usize = 1;
    proof {
        assert(beats@ + spec_select_from(candidate@, min_spacing as nat, 1, glast)
            =~= spec_select_from(candidate@, min_spacing as nat, 1, glast));
    }
    while i < n - 1
        invariant
            1 <= i <= n - 1,
            n == candidate@.len(),
            2 <= n,
            spec_select_beats(candidate@, min_spacing as nat) == beats@ + spec_select_from(
                candidate@,
                min_spacing as nat,
                i as int,
                glast,
            ),
            accepted is None ==> glast == -(min_spacing as int),
            accepted matches Some(lb) ==> glast == lb && lb < i,
        decreases n - i,
    {
        let is_candidate = candidate[i];
        let enough = match accepted {
            None => true,
            Some(lb) => i - lb >= min_spacing,
        };
        proof {
            assert(enough == (i as int - glast >= min_spacing as int));
        }
        if is_candidate && enough {
            proof {
                let rest = spec_select_from(candidate@, min_spacing as nat, i + 1, i as int);
                assert(spec_select_from(candidate@, min_spacing as nat, i as int, glast)
                    == seq![i] + rest);
                assert(beats@ + (seq![i] + rest) =~= (beats@ + seq![i]) + rest);
                assert(beats@.push(i) =~= beats@ + seq![i]);
            }
            beats.push(i);
            accepted = Some(i);
            proof {
                glast = i as int;
            }
        } else {
            proof {
                assert(spec_select_from(candidate@, min_spacing as nat, i as int, glast)
                    == spec_select_from(candidate@, min_spacing as nat, i + 1, glast));
            }
        }
        i = i + 1;
    }
    proof {
        assert(spec_select_from(candidate@, min_spacing as nat, i as int, glast)
            =~= Seq::<usize>::empty());
        assert(beats@ + Seq::<usize>::empty() =~= beats@);
    }
    beats
}

} // verus!
