//! The host-side plan of the parallel FFT pipeline.
//!
//! One `analyze` call runs five kinds of stages strictly in order: window,
//! bit-reversal reordering, `floor_log2(n)` butterfly passes over two
//! ping-pong buffers, magnitude extraction, and (for band output) the band
//! reduction. Each butterfly pass must observe the previous pass's writes,
//! so every pass is its own unit of work; the schedule below fixes, for each
//! pass, which buffer it reads and which it writes, and guarantees that
//! magnitude extraction always reads buffer A.

use vstd::prelude::*;
use crate::bits::{floor_log2, is_pow2, is_power_of_two, log2_floor};
use crate::errors::GpuFftError;
use vstd::arithmetic::div_mod::{
    lemma_div_is_ordered, lemma_div_is_ordered_by_denominator,
    lemma_fundamental_div_mod, lemma_fundamental_div_mod_converse_div,
};

verus! {

/// Ceiling of the requested band count, fixed by the pipeline's buffers.
pub const MAX_BANDS: usize = 2048;

/// Threads per workgroup of the window, reorder, butterfly and magnitude stages.
pub const WORKGROUP_SIZE: usize = 256;

/// Threads per workgroup of the band-reduction stage.
pub const BAND_WORKGROUP_SIZE: usize = 64;

/// One of the two ping-pong buffers of complex intermediates.
#[derive(Debug, Clone, Copy, PartialEq, Eq, Structural)]
pub enum BufferRole {
    A,
    B,
}

/// The buffer butterfly pass `stage` reads. The reordering stage writes B,
/// so pass 0 reads B, and the passes alternate from there.
pub open spec fn pass_input(stage: nat) -> BufferRole {
    if stage % 2 == 0 {
        BufferRole::B
    } else {
        BufferRole::A
    }
}

/// The buffer butterfly pass `stage` writes: always the one it does not read.
pub open spec fn pass_output(stage: nat) -> BufferRole {
    if stage % 2 == 0 {
        BufferRole::A
    } else {
        BufferRole::B
    }
}

/// One butterfly pass: its index and the buffers it reads and writes.
#[derive(Debug, Clone, Copy, PartialEq, Eq, Structural)]
pub struct ButterflyPass {
    pub stage: u32,
    pub input: BufferRole,
    pub output: BufferRole,
}

/// The full pass list for a transform of `n` butterfly stages.
pub open spec fn spec_butterfly_passes(n: nat) -> Seq<ButterflyPass> {
    Seq::new(
        n,
        |k: int|
            ButterflyPass {
                stage: k as u32,
                input: pass_input(k as nat),
                output: pass_output(k as nat),
            },
    )
}

/// No pass reads the buffer it writes, pass 0 reads the buffer the
/// reordering stage filled, and every later pass reads exactly the buffer
/// the previous pass wrote: the data dependency between consecutive passes
/// is honoured by construction.
pub proof fn lemma_passes_chain(n: nat)
    ensures
        forall|k: nat| k < n ==> #[trigger] pass_input(k) != pass_output(k),
        n >= 1 ==> pass_input(0) == BufferRole::B,
        forall|k: nat| 1 <= k < n ==> #[trigger] pass_input(k) == pass_output((k - 1) as nat),
{
}

/// After the last of `n >= 1` passes the data sits in buffer A exactly when
/// `n` is odd; a schedule with an even pass count therefore needs one extra
/// copy from B into A before magnitude extraction.
pub proof fn lemma_final_buffer(n: nat)
    requires
        n >= 1,
    ensures
        pass_output((n - 1) as nat) == (if n % 2 == 0 {
            BufferRole::B
        } else {
            BufferRole::A
        }),
{
}

/// The pipeline keeps no hidden state across calls: two well-formed plans
/// for the same transform size run the same number of passes and produce
/// the same schedule, so repeating a call repeats its device work exactly.
pub proof fn lemma_plan_deterministic(p1: FftPlan, p2: FftPlan)
    requires
        p1.wf(),
        p2.wf(),
        p1.spec_fft_size() == p2.spec_fft_size(),
    ensures
        p1.spec_num_stages() == p2.spec_num_stages(),
        spec_fft_steps(p1.spec_fft_size(), p1.spec_num_stages()) == spec_fft_steps(
            p2.spec_fft_size(),
            p2.spec_num_stages(),
        ),
{
}

/// One unit of device work of an `analyze` or `analyze_bands` call.
#[derive(Debug, Clone, Copy, PartialEq, Eq, Structural)]
pub enum FftStep {
    /// Multiply the first `n` samples by the window into buffer A.
    Window { workgroups: u32 },
    /// Reorder buffer A into buffer B by the bit-reversal permutation.
    BitReverse { workgroups: u32 },
    /// One butterfly pass from `input` to `output`.
    Butterfly { stage: u32, input: BufferRole, output: BufferRole, workgroups: u32 },
    /// Copy buffer B into buffer A after an even number of passes.
    CopyToA,
    /// Extract `n / 2` magnitudes from buffer A.
    Magnitude { workgroups: u32 },
    /// Reduce the magnitudes into the requested bands.
    BandReduce { workgroups: u32 },
}

/// Workgroup count covering `e` elements at `g` threads per group.
pub open spec fn spec_workgroups(e: nat, g: nat) -> nat
    recommends
        g >= 1,
{
    ((e + g - 1) / (g as int)) as nat
}

/// The butterfly step of pass `k` in a transform of `n_size` points.
pub open spec fn butterfly_step(n_size: nat, k: nat) -> FftStep {
    FftStep::Butterfly {
        stage: k as u32,
        input: pass_input(k),
        output: pass_output(k),
        workgroups: spec_workgroups(n_size / 2, WORKGROUP_SIZE as nat) as u32,
    }
}

/// The device schedule of one `analyze` call on a transform of `n_size`
/// points and `n_stages` butterfly passes.
pub open spec fn spec_fft_steps(n_size: nat, n_stages: nat) -> Seq<FftStep> {
    seq![
        FftStep::Window { workgroups: spec_workgroups(n_size, WORKGROUP_SIZE as nat) as u32 },
        FftStep::BitReverse { workgroups: spec_workgroups(n_size, WORKGROUP_SIZE as nat) as u32 },
    ] + Seq::new(n_stages, |k: int| butterfly_step(n_size, k as nat)) + (if n_stages % 2 == 0 {
        seq![FftStep::CopyToA]
    } else {
        Seq::<FftStep>::empty()
    }) + seq![
        FftStep::Magnitude { workgroups: spec_workgroups(n_size / 2, WORKGROUP_SIZE as nat) as u32 },
    ]
}

/// The device schedule of one `analyze_bands` call: the `analyze` schedule
/// followed by the band-reduction stage.
pub open spec fn spec_fft_band_steps(n_size: nat, n_stages: nat, num_bands: nat) -> Seq<FftStep> {
    spec_fft_steps(n_size, n_stages) + seq![
        FftStep::BandReduce {
            workgroups: spec_workgroups(num_bands, BAND_WORKGROUP_SIZE as nat) as u32,
        },
    ]
}

/// Workgroup count covering `elements` at `group` threads per group.
pub fn workgroups_of(elements: usize, group: usize) -> (r: u32)
    requires
        1 <= group,
        elements <= u32::MAX,
    ensures
        r == spec_workgroups(elements as nat, group as nat),
{
    let q = elements / group;
    let rem = elements % group;
    proof {
        lemma_fundamental_div_mod(elements as int, group as int);
        if rem == 0 {
            // elements + group - 1 == q * group + (group - 1)
            lemma_fundamental_div_mod_converse_div(
                elements as int + group - 1,
                group as int,
                q as int,
                group - 1,
            );
        } else {
            // elements + group - 1 == (q + 1) * group + (rem - 1)
            assert(elements as int + group - 1 == (q + 1) * (group as int) + (rem - 1))
                by (nonlinear_arith)
                requires
                    elements as int == (group as int) * (q as int) + rem,
            ;
            lemma_fundamental_div_mod_converse_div(
                elements as int + group - 1,
                group as int,
                q as int + 1,
                rem as int - 1,
            );
            // q + 1 stays in range: the divisor is at least 2 here
            lemma_div_is_ordered_by_denominator(elements as int, 2, group as int);
            lemma_div_is_ordered(elements as int, u32::MAX as int, 2);
        }
    }
    if rem == 0 {
        q as u32
    } else {
        (q + 1) as u32
    }
}

/// Clip a band's raw bin bounds to the spectrum: the lower edge to the last
/// bin, the upper edge to the bin count. The band is averaged over
/// `[low, high)` when that range is non-empty, and read from bin `low`
/// alone when it collapses.
pub fn band_bin_range(bin_low: usize, bin_high: usize, num_bins: usize) -> (r: (usize, usize))
    requires
        1 <= num_bins,
    ensures
        r.0 == vstd::math::min(bin_low as int, num_bins as int - 1),
        r.1 == vstd::math::min(bin_high as int, num_bins as int),
        r.0 < num_bins,
        r.1 <= num_bins,
{
    let low = if bin_low < num_bins {
        bin_low
    } else {
        num_bins - 1
    };
    let high = if bin_high < num_bins {
        bin_high
    } else {
        num_bins
    };
    (low, high)
}

/// Reject an input slice shorter than one transform.
pub fn check_samples(fft_size: usize, got: usize) -> (r: Result<(), GpuFftError>)
    ensures
        r is Ok <==> got >= fft_size,
        r matches Err(e) ==> e == (GpuFftError::InsufficientSamples { needed: fft_size, got }),
{
    if got < fft_size {
        Err(GpuFftError::InsufficientSamples { needed: fft_size, got })
    } else {
        Ok(())
    }
}

/// Reject a band count above the pipeline's fixed ceiling.
pub fn check_bands(num_bands: usize) -> (r: Result<(), GpuFftError>)
    ensures
        r is Ok <==> num_bands <= MAX_BANDS,
        r matches Err(e) ==> e == (GpuFftError::TooManyBands { max: MAX_BANDS, requested: num_bands }),
{
    if num_bands > MAX_BANDS {
        Err(GpuFftError::TooManyBands { max: MAX_BANDS, requested: num_bands })
    } else {
        Ok(())
    }
}

/// The per-instance plan of the parallel pipeline: the validated transform
/// size and the number of butterfly passes it implies.
pub struct FftPlan {
    fft_size: usize,
    num_stages: u32,
}

impl FftPlan {
    /// The plan's invariant: the size is a power of two of at least 2, and
    /// the pass count is its base-two logarithm.
    pub closed spec fn wf(self) -> bool {
        &&& is_pow2(self.fft_size as nat)
        &&& self.fft_size >= 2
        &&& self.num_stages == floor_log2(self.fft_size as nat)
    }

    pub closed spec fn spec_fft_size(self) -> nat {
        self.fft_size as nat
    }

    pub closed spec fn spec_num_stages(self) -> nat {
        self.num_stages as nat
    }

    /// Validate a transform size. Only a power of two of at least 2 is
    /// accepted; everything else is a construction-time error.
    pub fn new(fft_size: usize) -> (r: Result<FftPlan, GpuFftError>)
        ensures
            r is Ok <==> (is_pow2(fft_size as nat) && fft_size >= 2),
            r matches Ok(p) ==> p.wf() && p.spec_fft_size() == fft_size && crate::bits::exp2(
                p.spec_num_stages(),
            ) == fft_size,
            r matches Err(e) ==> e == GpuFftError::InvalidFftSize(fft_size),
    {
        if fft_size >= 2 && is_power_of_two(fft_size) {
            let num_stages = log2_floor(fft_size);
            proof {
                // the pass count is exact: the size is two to the number of
                // butterfly passes
                crate::bits::lemma_pow2_log2(fft_size as nat);
            }
            Ok(FftPlan { fft_size, num_stages })
        } else {
            Err(GpuFftError::InvalidFftSize(fft_size))
        }
    }

    /// The transform size this plan was built for.
    pub fn fft_size(&self) -> (r: usize)
        ensures
            r == self.spec_fft_size(),
    {
        self.fft_size
    }

    /// Number of frequency bins produced: half the transform size.
    pub fn num_bins(&self) -> (r: usize)
        ensures
            r == self.spec_fft_size() / 2,
    {
        self.fft_size / 2
    }

    /// Number of butterfly passes.
    pub fn num_stages(&self) -> (r: u32)
        ensures
            r == self.spec_num_stages(),
    {
        self.num_stages
    }

    /// Whether the final pass leaves the data in buffer B, so that one extra
    /// copy into A is needed before magnitude extraction.
    pub fn needs_final_copy(&self) -> (r: bool)
        ensures
            r == (self.spec_num_stages() % 2 == 0),
    {
        self.num_stages % 2 == 0
    }

    /// The butterfly pass list of this plan, in execution order.
    pub fn butterfly_passes(&self) -> (passes: Vec<ButterflyPass>)
        ensures
            passes@ == spec_butterfly_passes(self.spec_num_stages()),
    {
        let n = self.num_stages;
        let mut passes: Vec<ButterflyPass> = Vec::new();
        let mut k: u32 = 0;
        while k < n
            invariant
                k <= n,
                passes@.len() == k,
                forall|idx: int|
                    0 <= idx < k ==> passes@[idx] == #[trigger] spec_butterfly_passes(
                        n as nat,
                    )[idx],
            decreases n - k,
        {
            let input = if k % 2 == 0 {
                BufferRole::B
            } else {
                BufferRole::A
            };
            let output = if k % 2 == 0 {
                BufferRole::A
            } else {
                BufferRole::B
            };
            passes.push(ButterflyPass { stage: k, input, output });
            k = k + 1;
        }
        proof {
            assert(passes@ =~= spec_butterfly_passes(n as nat));
        }
        passes
    }

    /// The device schedule of one `analyze` call: window, reorder, the
    /// butterfly passes, the copy into A when the pass count is even, and
    /// magnitude extraction, strictly in this order.
    pub fn analyze_steps(&self) -> (steps: Vec<FftStep>)
        requires
            self.wf(),
            self.spec_fft_size() <= u32::MAX,
        ensures
            steps@ == spec_fft_steps(self.spec_fft_size(), self.spec_num_stages()),
    {
        let ghost gsize = self.spec_fft_size();
        let ghost gstages = self.spec_num_stages();
        let wg_full = workgroups_of(self.fft_size, WORKGROUP_SIZE);
        let wg_half = workgroups_of(self.fft_size / 2, WORKGROUP_SIZE);
        let mut steps: Vec<FftStep> = Vec::new();
        steps.push(FftStep::Window { workgroups: wg_full });
        steps.push(FftStep::BitReverse { workgroups: wg_full });
        let passes = self.butterfly_passes();
        let mut k: usize = 0;
        while k < passes.len()
            invariant
                k <= passes@.len(),
                passes@ == spec_butterfly_passes(gstages),
                steps@.len() == 2 + k,
                steps@[0] == (FftStep::Window {
                    workgroups: spec_workgroups(gsize, WORKGROUP_SIZE as nat) as u32,
                }),
                steps@[1] == (FftStep::BitReverse {
                    workgroups: spec_workgroups(gsize, WORKGROUP_SIZE as nat) as u32,
                }),
                forall|idx: int|
                    2 <= idx < 2 + k ==> steps@[idx] == butterfly_step(gsize, (idx - 2) as nat),
                wg_half == spec_workgroups(gsize / 2, WORKGROUP_SIZE as nat),
            decreases passes@.len() - k,
        {
            let p = passes[k];
            steps.push(
                FftStep::Butterfly {
                    stage: p.stage,
                    input: p.input,
                    output: p.output,
                    workgroups: wg_half,
                },
            );
            k = k + 1;
        }
        if self.num_stages % 2 == 0 {
            steps.push(FftStep::CopyToA);
        }
        steps.push(FftStep::Magnitude { workgroups: wg_half });
        proof {
            assert(steps@ =~= spec_fft_steps(gsize, gstages));
        }
        steps
    }

    /// The device schedule of one `analyze_bands` call: the `analyze`
    /// schedule followed by the band-reduction stage.
    pub fn analyze_bands_steps(&self, num_bands: usize) -> (steps: Vec<FftStep>)
        requires
            self.wf(),
            self.spec_fft_size() <= u32::MAX,
            num_bands <= MAX_BANDS,
        ensures
            steps@ == spec_fft_band_steps(
                self.spec_fft_size(),
                self.spec_num_stages(),
                num_bands as nat,
            ),
    {
        let mut steps = self.analyze_steps();
        let wg_bands = workgroups_of(num_bands, BAND_WORKGROUP_SIZE);
        steps.push(FftStep::BandReduce { workgroups: wg_bands });
        proof {
            assert(steps@ =~= spec_fft_band_steps(
                self.spec_fft_size(),
                self.spec_num_stages(),
                num_bands as nat,
            ));
        }
        steps
    }
}

} // verus!
