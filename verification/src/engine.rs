//! Curve selection and the per-block decision of the waveshaping
//! engine.
//!
//! The curve selector is a normalized value (millionths of a unit)
//! partitioned into three bands, each band choosing one nonlinear
//! transfer curve. The bands are inclusive on both ends and are tried
//! in order, so a shared boundary activates the lower band. A selector
//! outside the normalized range selects the identity curve and the
//! block passes through changed only by the output gain. The transfer
//! curves themselves act on floating-point samples and are computed by
//! the caller from the returned tag.

use vstd::prelude::*;

verus! {

/// Upper end of the hyperbolic-tangent band, in millionths (0.33).
pub const TANH_BAND_END: i64 = 330_000;

/// Upper end of the sinusoidal band, in millionths (0.67).
pub const SINE_BAND_END: i64 = 670_000;

/// Upper end of the logarithmic band, in millionths (1.0).
pub const LOG_BAND_END: i64 = 1_000_000;

/// The nonlinear transfer curve a block is shaped with. Each tag names
/// a fixed formula over the block's precomputed drive `k`:
/// `TanhSaturate` is `tanh(x*k) / max(tanh(k), eps)`, `SineFold` is
/// `sin(x*k) / max(sin(min(k,1)), eps)`, `LogCompress` is
/// `sign(x) * ln(|x|*k + 1) / max(ln(k + 1), eps)`, and `Identity` is
/// `x` itself.
#[derive(Clone, Copy, Debug, PartialEq, Eq, Structural)]
pub enum Curve {
    TanhSaturate,
    SineFold,
    LogCompress,
    Identity,
}

/// The curve chosen by the normalized selector `sel` (millionths):
/// three equal-by-design closed bands, tried low to high, identity
/// outside the normalized range.
pub open spec fn spec_select_curve(sel: int) -> Curve {
    if 0 <= sel <= TANH_BAND_END {
        Curve::TanhSaturate
    } else if TANH_BAND_END <= sel <= SINE_BAND_END {
        Curve::SineFold
    } else if SINE_BAND_END <= sel <= LOG_BAND_END {
        Curve::LogCompress
    } else {
        Curve::Identity
    }
}

/// Chooses the transfer curve for the selector `sel`.
pub fn select_curve(sel: i64) -> (r: Curve)
    ensures
        r == spec_select_curve(sel as int),
{
    if 0 <= sel && sel <= TANH_BAND_END {
        Curve::TanhSaturate
    } else if TANH_BAND_END <= sel && sel <= SINE_BAND_END {
        Curve::SineFold
    } else if SINE_BAND_END <= sel && sel <= LOG_BAND_END {
        Curve::LogCompress
    } else {
        Curve::Identity
    }
}

/// What the engine does with one audio block: nothing when either
/// side has fewer than two channels, otherwise shape every sample
/// with the selected curve.
pub open spec fn spec_plan_block(input_channels: int, output_channels: int, sel: int) -> Option<
    Curve,
> {
    if input_channels < 2 || output_channels < 2 {
        None
    } else {
        Some(spec_select_curve(sel))
    }
}

/// Decides the processing of one block from the channel layout and the
/// normalized curve selector: `None` means the block is left untouched
/// (the defensive stereo guard), `Some(c)` means every sample pair is
/// shaped with curve `c` and scaled by the output gain.
pub fn plan_block(input_channels: usize, output_channels: usize, sel: i64) -> (r: Option<Curve>)
    ensures
        r == spec_plan_block(input_channels as int, output_channels as int, sel as int),
{
    if input_channels < 2 || output_channels < 2 {
        None
    } else {
        Some(select_curve(sel))
    }
}

/// Law: a selector outside the normalized range always selects the
/// identity curve — out-of-range automation bypasses the distortion.
pub proof fn lemma_identity_bypass(sel: int)
    requires
        sel < 0 || sel > LOG_BAND_END,
    ensures
        spec_select_curve(sel) == Curve::Identity,
{
}

/// Law: a block with fewer than two input or output channels is never
/// processed, whatever the selector says.
pub proof fn lemma_channel_guard(input_channels: int, output_channels: int, sel: int)
    requires
        input_channels < 2 || output_channels < 2,
    ensures
        spec_plan_block(input_channels, output_channels, sel) is None,
{
}

/// Law: each band boundary belongs to the band below it, so the curve
/// at a shared boundary is the lower band's curve.
pub proof fn lemma_boundaries_go_low()
    ensures
        spec_select_curve(TANH_BAND_END as int) == Curve::TanhSaturate,
        spec_select_curve(SINE_BAND_END as int) == Curve::SineFold,
        spec_select_curve(LOG_BAND_END as int) == Curve::LogCompress,
{
}

} // verus!
