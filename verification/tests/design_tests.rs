//! Tests of the design registry: parsing, names, and the marker types.

use phobz_visualizer::designs::{
    BarsDesign, CircularRadialDesign, CircularRingDesign, DesignType, EdgeDistribution,
    FrameCornersDesign, FramePerimeterDesign, ParticlePattern, ParticlesDesign, Rng,
    SpectrogramStyle, SpectrumMountainDesign, WaveformLineDesign,
};

#[test]
fn test_design_type_from_str_parsing() {
    // Valid inputs
    assert_eq!(DesignType::from_str("bars"), Some(DesignType::Bars));
    assert_eq!(DesignType::from_str("BARS"), Some(DesignType::Bars));
    assert_eq!(DesignType::from_str("radial"), Some(DesignType::CircularRadial));
    assert_eq!(DesignType::from_str("ring"), Some(DesignType::CircularRing));
    // Invalid inputs
    assert_eq!(DesignType::from_str("invalid"), None);
}

#[test]
fn test_design_type_aliases() {
    assert_eq!(DesignType::from_str("circular-radial"), Some(DesignType::CircularRadial));
    assert_eq!(DesignType::from_str("CircularRadial"), Some(DesignType::CircularRadial));
    assert_eq!(DesignType::from_str("circular-ring"), Some(DesignType::CircularRing));
    assert_eq!(DesignType::from_str("frame-perimeter"), Some(DesignType::FramePerimeter));
    assert_eq!(DesignType::from_str("perimeter"), Some(DesignType::FramePerimeter));
    assert_eq!(DesignType::from_str("frame"), Some(DesignType::FramePerimeter));
    assert_eq!(DesignType::from_str("frame-corners"), Some(DesignType::FrameCorners));
    assert_eq!(DesignType::from_str("corners"), Some(DesignType::FrameCorners));
    assert_eq!(DesignType::from_str("waveform-line"), Some(DesignType::WaveformLine));
    assert_eq!(DesignType::from_str("oscilloscope"), Some(DesignType::WaveformLine));
    assert_eq!(DesignType::from_str("line"), Some(DesignType::WaveformLine));
    assert_eq!(DesignType::from_str("spectrum-mountain"), Some(DesignType::SpectrumMountain));
    assert_eq!(DesignType::from_str("mountain"), Some(DesignType::SpectrumMountain));
    assert_eq!(DesignType::from_str("area"), Some(DesignType::SpectrumMountain));
    assert_eq!(DesignType::from_str("particles"), Some(DesignType::Particles));
    assert_eq!(DesignType::from_str("Particle"), Some(DesignType::Particles));
    assert_eq!(DesignType::from_str(""), None);
    assert_eq!(DesignType::from_str("bars "), None);
}

#[test]
fn test_design_type_names_round_trip() {
    for design in DesignType::all() {
        let name = design.name();
        assert_eq!(DesignType::from_str(name), Some(design));
        assert!(!design.description().is_empty());
    }
}

#[test]
fn test_design_type_all_lists_every_design() {
    let all = DesignType::all();
    assert_eq!(
        all,
        vec![
            DesignType::Bars,
            DesignType::CircularRadial,
            DesignType::CircularRing,
            DesignType::FramePerimeter,
            DesignType::FrameCorners,
            DesignType::WaveformLine,
            DesignType::SpectrumMountain,
            DesignType::Particles,
        ]
    );
}

#[test]
fn test_design_markers_report_their_type() {
    assert_eq!(BarsDesign.design_type(), DesignType::Bars);
    assert_eq!(CircularRadialDesign.design_type(), DesignType::CircularRadial);
    assert_eq!(CircularRingDesign.design_type(), DesignType::CircularRing);
    assert_eq!(FrameCornersDesign.design_type(), DesignType::FrameCorners);
    assert_eq!(FramePerimeterDesign.design_type(), DesignType::FramePerimeter);
    assert_eq!(ParticlesDesign.design_type(), DesignType::Particles);
    assert_eq!(SpectrumMountainDesign.design_type(), DesignType::SpectrumMountain);
    assert_eq!(WaveformLineDesign.design_type(), DesignType::WaveformLine);
}

#[test]
fn test_option_enums_defaults() {
    assert_eq!(EdgeDistribution::default(), EdgeDistribution::All);
    assert_eq!(ParticlePattern::default(), ParticlePattern::Random);
    assert_eq!(SpectrogramStyle::default(), SpectrogramStyle::Scrolling);
}

#[test]
fn test_rng_step_value() {
    // seed 1: bits 0 and 13 after the first shift, bits 5 and 18 added by
    // the last, giving 8193 ^ (8193 << 5)
    let mut rng = Rng::new(1);
    assert_eq!(rng.step(), 270369);
}

#[test]
fn test_rng_deterministic() {
    let mut a = Rng::new(12345);
    let mut b = Rng::new(12345);
    for _ in 0..100 {
        assert_eq!(a.step(), b.step());
    }
    let mut c = Rng::new(54321);
    let mut diff = false;
    for _ in 0..100 {
        if a.step() != c.step() {
            diff = true;
        }
    }
    assert!(diff);
}
