//! The visualization design registry.
//!
//! Each design renders the band spectrum in a different shape; this module
//! holds the closed set of design identifiers, their names and descriptions,
//! the ASCII case-insensitive parser that selects one, the option enums the
//! designs are configured with, and the deterministic generator that places
//! particles.

use vstd::prelude::*;
use vstd::string::StrSliceExecFns;

verus! {

/// The closed set of available designs.
#[derive(Debug, Clone, Copy, PartialEq, Eq, Hash, Structural)]
pub enum DesignType {
    Bars,
    CircularRadial,
    CircularRing,
    FramePerimeter,
    FrameCorners,
    WaveformLine,
    SpectrumMountain,
    Particles,
}

/// The code point of `c` with an ASCII capital folded to its small letter.
pub open spec fn to_lower_code(c: char) -> int {
    if 'A' as int <= c as int <= 'Z' as int {
        c as int + 32
    } else {
        c as int
    }
}

/// Whether `s`, folded to ASCII lower case, spells exactly `t`.
pub open spec fn eq_lower(s: Seq<char>, t: Seq<char>) -> bool {
    s.len() == t.len() && forall|i: int|
        0 <= i < s.len() ==> to_lower_code(s[i]) == #[trigger] t[i] as int
}

/// The design a name denotes, if any: each design answers to its canonical
/// hyphenated name and a few aliases, compared ASCII case-insensitively.
pub open spec fn spec_design_from_str(s: Seq<char>) -> Option<DesignType> {
    if eq_lower(s, "bars"@) {
        Some(DesignType::Bars)
    } else if eq_lower(s, "circular-radial"@) || eq_lower(s, "circularradial"@) || eq_lower(
        s,
        "radial"@,
    ) {
        Some(DesignType::CircularRadial)
    } else if eq_lower(s, "circular-ring"@) || eq_lower(s, "circularring"@) || eq_lower(
        s,
        "ring"@,
    ) {
        Some(DesignType::CircularRing)
    } else if eq_lower(s, "frame-perimeter"@) || eq_lower(s, "frameperimeter"@) || eq_lower(
        s,
        "perimeter"@,
    ) || eq_lower(s, "frame"@) {
        Some(DesignType::FramePerimeter)
    } else if eq_lower(s, "frame-corners"@) || eq_lower(s, "framecorners"@) || eq_lower(
        s,
        "corners"@,
    ) {
        Some(DesignType::FrameCorners)
    } else if eq_lower(s, "waveform-line"@) || eq_lower(s, "waveformline"@) || eq_lower(
        s,
        "line"@,
    ) || eq_lower(s, "oscilloscope"@) {
        Some(DesignType::WaveformLine)
    } else if eq_lower(s, "spectrum-mountain"@) || eq_lower(s, "spectrummountain"@) || eq_lower(
        s,
        "mountain"@,
    ) || eq_lower(s, "area"@) {
        Some(DesignType::SpectrumMountain)
    } else if eq_lower(s, "particles"@) || eq_lower(s, "particle"@) {
        Some(DesignType::Particles)
    } else {
        None
    }
}

/// Whether `s`, folded to ASCII lower case, equals `t`.
fn eq_ignore_case(s: &str, t: &str) -> (r: bool)
    ensures
        r == eq_lower(s@, t@),
{
    let ns = s.unicode_len();
    let nt = t.unicode_len();
    if ns != nt {
        return false;
    }
    let mut i: usize = 0;
    while i < ns
        invariant
            0 <= i <= ns,
            ns == s@.len(),
            ns == t@.len(),
            forall|j: int| 0 <= j < i ==> to_lower_code(s@[j]) == #[trigger] t@[j] as int,
        decreases ns - i,
    {
        let cs = s.get_char(i) as u32;
        let ct = t.get_char(i) as u32;
        let lowered = if cs >= 65 && cs <= 90 {
            cs + 32
        } else {
            cs
        };
        if lowered != ct {
            return false;
        }
        i = i + 1;
    }
    true
}

/// The canonical name of a design.
pub open spec fn spec_design_name(d: DesignType) -> Seq<char> {
    match d {
        DesignType::Bars => "bars"@,
        DesignType::CircularRadial => "circular-radial"@,
        DesignType::CircularRing => "circular-ring"@,
        DesignType::FramePerimeter => "frame-perimeter"@,
        DesignType::FrameCorners => "frame-corners"@,
        DesignType::WaveformLine => "waveform-line"@,
        DesignType::SpectrumMountain => "spectrum-mountain"@,
        DesignType::Particles => "particles"@,
    }
}

/// The one-line description of a design.
pub open spec fn spec_design_description(d: DesignType) -> Seq<char> {
    match d {
        DesignType::Bars => "Traditional vertical/horizontal bars"@,
        DesignType::CircularRadial => "Bars emanating outward from center"@,
        DesignType::CircularRing => "Bars arranged around a ring"@,
        DesignType::FramePerimeter => "Bars along screen edges (overlay)"@,
        DesignType::FrameCorners => "Bars at frame corners"@,
        DesignType::WaveformLine => "Classic oscilloscope-style line"@,
        DesignType::SpectrumMountain => "Filled polygon spectrum"@,
        DesignType::Particles => "Beat-reactive particles"@,
    }
}

impl DesignType {
    /// Parse a design name, ASCII case-insensitively, accepting each
    /// design's canonical name and aliases.
    #[allow(clippy::should_implement_trait)]
    pub fn from_str(s: &str) -> (r: Option<DesignType>)
        ensures
            r == spec_design_from_str(s@),
    {
        if eq_ignore_case(s, "bars") {
            Some(DesignType::Bars)
        } else if eq_ignore_case(s, "circular-radial") || eq_ignore_case(s, "circularradial")
            || eq_ignore_case(s, "radial") {
            Some(DesignType::CircularRadial)
        } else if eq_ignore_case(s, "circular-ring") || eq_ignore_case(s, "circularring")
            || eq_ignore_case(s, "ring") {
            Some(DesignType::CircularRing)
        } else if eq_ignore_case(s, "frame-perimeter") || eq_ignore_case(s, "frameperimeter")
            || eq_ignore_case(s, "perimeter") || eq_ignore_case(s, "frame") {
            Some(DesignType::FramePerimeter)
        } else if eq_ignore_case(s, "frame-corners") || eq_ignore_case(s, "framecorners")
            || eq_ignore_case(s, "corners") {
            Some(DesignType::FrameCorners)
        } else if eq_ignore_case(s, "waveform-line") || eq_ignore_case(s, "waveformline")
            || eq_ignore_case(s, "line") || eq_ignore_case(s, "oscilloscope") {
            Some(DesignType::WaveformLine)
        } else if eq_ignore_case(s, "spectrum-mountain") || eq_ignore_case(s, "spectrummountain")
            || eq_ignore_case(s, "mountain") || eq_ignore_case(s, "area") {
            Some(DesignType::SpectrumMountain)
        } else if eq_ignore_case(s, "particles") || eq_ignore_case(s, "particle") {
            Some(DesignType::Particles)
        } else {
            None
        }
    }

    /// The canonical name of this design.
    pub fn name(&self) -> (r: &'static str)
        ensures
            r@ == spec_design_name(*self),
    {
        match self {
            DesignType::Bars => "bars",
            DesignType::CircularRadial => "circular-radial",
            DesignType::CircularRing => "circular-ring",
            DesignType::FramePerimeter => "frame-perimeter",
            DesignType::FrameCorners => "frame-corners",
            DesignType::WaveformLine => "waveform-line",
            DesignType::SpectrumMountain => "spectrum-mountain",
            DesignType::Particles => "particles",
        }
    }

    /// A one-line description of this design.
    pub fn description(&self) -> (r: &'static str)
        ensures
            r@ == spec_design_description(*self),
    {
        match self {
            DesignType::Bars => "Traditional vertical/horizontal bars",
            DesignType::CircularRadial => "Bars emanating outward from center",
            DesignType::CircularRing => "Bars arranged around a ring",
            DesignType::FramePerimeter => "Bars along screen edges (overlay)",
            DesignType::FrameCorners => "Bars at frame corners",
            DesignType::WaveformLine => "Classic oscilloscope-style line",
            DesignType::SpectrumMountain => "Filled polygon spectrum",
            DesignType::Particles => "Beat-reactive particles",
        }
    }

    /// Every design, in registry order.
    pub fn all() -> (r: Vec<DesignType>)
        ensures
            r@ == seq![
                DesignType::Bars,
                DesignType::CircularRadial,
                DesignType::CircularRing,
                DesignType::FramePerimeter,
                DesignType::FrameCorners,
                DesignType::WaveformLine,
                DesignType::SpectrumMountain,
                DesignType::Particles,
            ],
    {
        let mut r: Vec<DesignType> = Vec::new();
        r.push(DesignType::Bars);
        r.push(DesignType::CircularRadial);
        r.push(DesignType::CircularRing);
        r.push(DesignType::FramePerimeter);
        r.push(DesignType::FrameCorners);
        r.push(DesignType::WaveformLine);
        r.push(DesignType::SpectrumMountain);
        r.push(DesignType::Particles);
        proof {
            assert(r@ =~= seq![
                DesignType::Bars,
                DesignType::CircularRadial,
                DesignType::CircularRing,
                DesignType::FramePerimeter,
                DesignType::FrameCorners,
                DesignType::WaveformLine,
                DesignType::SpectrumMountain,
                DesignType::Particles,
            ]);
        }
        r
    }
}

/// How bars are distributed across the frame's edges.
#[derive(Debug, Clone, Copy, PartialEq, Eq, Default, Structural)]
pub enum EdgeDistribution {
    /// Distribute bars proportionally across all edges.
    #[default]
    All,
    /// Bars only on top and bottom edges.
    TopBottom,
    /// Bars only on left and right edges.
    LeftRight,
    /// Bars only on the top edge.
    TopOnly,
    /// Bars only on the bottom edge.
    BottomOnly,
}

/// How particles are spread over the frame.
#[derive(Debug, Clone, Copy, PartialEq, Eq, Default, Structural)]
pub enum ParticlePattern {
    /// Particles randomly distributed across the screen.
    #[default]
    Random,
    /// Particles emanate from the center.
    Center,
    /// Particles arranged in a ring.
    Ring,
    /// Particles burst outward from the center.
    Burst,
}

/// Visual style of the spectrogram display.
#[derive(Debug, Clone, Copy, PartialEq, Eq, Default, Structural)]
pub enum SpectrogramStyle {
    /// Standard scrolling spectrogram, time flowing left to right.
    #[default]
    Scrolling,
    /// Waterfall style, time flowing top to bottom.
    Waterfall,
}

/// Traditional vertical/horizontal bars visualization.
pub struct BarsDesign;

/// Bars emanating outward from the center.
pub struct CircularRadialDesign;

/// Bars arranged around a ring.
pub struct CircularRingDesign;

/// Bars positioned at the frame's corners.
pub struct FrameCornersDesign;

/// Bars along the screen's edges.
pub struct FramePerimeterDesign;

/// Beat-reactive particle visualization.
pub struct ParticlesDesign;

/// Filled polygon spectrum.
pub struct SpectrumMountainDesign;

/// Classic oscilloscope-style line.
pub struct WaveformLineDesign;

impl BarsDesign {
    pub fn design_type(&self) -> (r: DesignType)
        ensures
            r == DesignType::Bars,
    {
        DesignType::Bars
    }
}

impl CircularRadialDesign {
    pub fn design_type(&self) -> (r: DesignType)
        ensures
            r == DesignType::CircularRadial,
    {
        DesignType::CircularRadial
    }
}

impl CircularRingDesign {
    pub fn design_type(&self) -> (r: DesignType)
        ensures
            r == DesignType::CircularRing,
    {
        DesignType::CircularRing
    }
}

impl FrameCornersDesign {
    pub fn design_type(&self) -> (r: DesignType)
        ensures
            r == DesignType::FrameCorners,
    {
        DesignType::FrameCorners
    }
}

impl FramePerimeterDesign {
    pub fn design_type(&self) -> (r: DesignType)
        ensures
            r == DesignType::FramePerimeter,
    {
        DesignType::FramePerimeter
    }
}

impl ParticlesDesign {
    pub fn design_type(&self) -> (r: DesignType)
        ensures
            r == DesignType::Particles,
    {
        DesignType::Particles
    }
}

impl SpectrumMountainDesign {
    pub fn design_type(&self) -> (r: DesignType)
        ensures
            r == DesignType::SpectrumMountain,
    {
        DesignType::SpectrumMountain
    }
}

impl WaveformLineDesign {
    pub fn design_type(&self) -> (r: DesignType)
        ensures
            r == DesignType::WaveformLine,
    {
        DesignType::WaveformLine
    }
}

/// One xorshift step over a 32-bit state.
pub open spec fn spec_xorshift(s: u32) -> u32 {
    let a = s ^ (s << 13u32);
    let b = a ^ (a >> 17u32);
    b ^ (b << 5u32)
}

/// Deterministic pseudo-random generator for particle placement: a 32-bit
/// xorshift whose whole trajectory is fixed by its seed, so equal spectra
/// place equal particles.
pub struct Rng {
    state: u32,
}

impl Rng {
    pub closed spec fn spec_state(self) -> u32 {
        self.state
    }

    /// A generator starting from `seed`.
    pub fn new(seed: u32) -> (r: Rng)
        ensures
            r.spec_state() == seed,
    {
        Rng { state: seed }
    }

    /// Advance the state one xorshift step and return it.
    pub fn step(&mut self) -> (r: u32)
        ensures
            final(self).spec_state() == spec_xorshift(old(self).spec_state()),
            r == final(self).spec_state(),
    {
        let s0 = self.state;
        let s1 = s0 ^ (s0 << 13u32);
        let s2 = s1 ^ (s1 >> 17u32);
        let s3 = s2 ^ (s2 << 5u32);
        self.state = s3;
        s3
    }
}

} // verus!
