use iron_distort::engine::{plan_block, select_curve, Curve};
use iron_distort::params::DistortParameters;

#[test]
fn default_bank() {
    // A fresh bank: 0 dB drive, 0 dB output gain, first curve.
    let p = DistortParameters::default();
    assert_eq!(0, p.get_parameter(0));
    assert_eq!(0, p.get_parameter(1));
    assert_eq!(0, p.get_parameter(2));
    assert_eq!("0.00 dB", p.get_parameter_text(0));
    assert_eq!("0.00 dB", p.get_parameter_text(1));
    assert_eq!("Hyp. Tengant", p.get_parameter_text(2));
}

#[test]
fn parameter_names() {
    let p = DistortParameters::default();
    assert_eq!("Drive", p.get_parameter_name(0));
    assert_eq!("Out Gain", p.get_parameter_name(1));
    assert_eq!("Dist. function", p.get_parameter_name(2));
    assert_eq!("Not Implemented", p.get_parameter_name(3));
    assert_eq!("Not Implemented", p.get_parameter_name(-1));
}

#[test]
fn drive_normalized_round_trip() {
    // Host writes half scale: 20 dB of drive, read back unchanged.
    let mut p = DistortParameters::default();
    p.set_parameter(0, 500_000);
    assert_eq!(500_000, p.get_parameter(0));
    assert_eq!("20.00 dB", p.get_parameter_text(0));
    p.set_parameter(0, 1_000_000);
    assert_eq!(1_000_000, p.get_parameter(0));
    assert_eq!("40.00 dB", p.get_parameter_text(0));
}

#[test]
fn out_gain_stores_decibels() {
    let mut p = DistortParameters::default();
    p.set_parameter(1, -6_020_600);
    assert_eq!(-6_020_600, p.get_parameter(1));
    assert_eq!("-6.02 dB", p.get_parameter_text(1));
}

#[test]
fn unknown_index_is_ignored() {
    let mut p = DistortParameters::default();
    p.set_parameter(0, 500_000);
    p.set_parameter(3, 999_999);
    p.set_parameter(-1, 999_999);
    assert_eq!(500_000, p.get_parameter(0));
    assert_eq!(0, p.get_parameter(1));
    assert_eq!(0, p.get_parameter(2));
}

#[test]
fn automatable_parameters() {
    let p = DistortParameters::default();
    assert!(p.can_be_automated(0));
    assert!(p.can_be_automated(1));
    assert!(!p.can_be_automated(2));
    assert!(!p.can_be_automated(3));
}

#[test]
fn curve_bands() {
    assert_eq!(Curve::TanhSaturate, select_curve(0));
    assert_eq!(Curve::TanhSaturate, select_curve(200_000));
    assert_eq!(Curve::SineFold, select_curve(500_000));
    assert_eq!(Curve::LogCompress, select_curve(800_000));
    assert_eq!(Curve::LogCompress, select_curve(1_000_000));
}

#[test]
fn curve_boundaries_belong_to_the_lower_band() {
    // 0.33 exactly is still the tanh band; just above it is the sine
    // band. Same at the 0.67 boundary.
    assert_eq!(Curve::TanhSaturate, select_curve(330_000));
    assert_eq!(Curve::SineFold, select_curve(330_001));
    assert_eq!(Curve::SineFold, select_curve(670_000));
    assert_eq!(Curve::LogCompress, select_curve(670_001));
}

#[test]
fn out_of_range_selector_bypasses() {
    // The host's -1 and 2.0 in normalized units.
    assert_eq!(Curve::Identity, select_curve(-1_000_000));
    assert_eq!(Curve::Identity, select_curve(2_000_000));
    assert_eq!(Curve::Identity, select_curve(1_000_001));
    assert_eq!(Curve::Identity, select_curve(-1));
}

#[test]
fn curve_selector_text() {
    let mut p = DistortParameters::default();
    p.set_parameter(2, 500_000);
    assert_eq!("Sine", p.get_parameter_text(2));
    p.set_parameter(2, 800_000);
    assert_eq!("Log", p.get_parameter_text(2));
    p.set_parameter(2, 2_000_000);
    assert_eq!("Unknown range 2.00", p.get_parameter_text(2));
    p.set_parameter(2, -1_000_000);
    assert_eq!("Unknown range -1.00", p.get_parameter_text(2));
    assert_eq!("Not Implemented", p.get_parameter_text(5));
}

#[test]
fn channel_guard() {
    // Fewer than two channels on either side: the block is untouched.
    assert_eq!(None, plan_block(1, 2, 0));
    assert_eq!(None, plan_block(2, 1, 0));
    assert_eq!(None, plan_block(0, 0, 500_000));
    assert_eq!(Some(Curve::TanhSaturate), plan_block(2, 2, 0));
}

#[test]
fn end_to_end_block_decision() {
    // Drive at half scale is 20 dB; selector 0 picks the tanh curve
    // for a stereo block.
    let mut p = DistortParameters::default();
    p.set_parameter(0, 500_000);
    p.set_parameter(1, 0);
    p.set_parameter(2, 0);
    assert_eq!(500_000, p.get_parameter(0));
    assert_eq!(Some(Curve::TanhSaturate), plan_block(2, 2, p.get_parameter(2)));
}
