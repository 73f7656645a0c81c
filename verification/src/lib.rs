//! Signal-processing core of a distortion audio effect: a decibel gain
//! store, a bank of three host-automatable parameters (drive, output
//! gain, curve selector), and the curve-selection logic of the
//! waveshaping engine.
//!
//! All quantities are held in fixed point: normalized host values and
//! decibel values are integers counting millionths of a unit, so that
//! every mapping between the host's normalized scale and engineering
//! units is exact and proved. The transcendental parts of the effect
//! (decibel/linear conversion, the transfer curves themselves) operate
//! on floating-point samples and live with the host-facing plumbing,
//! outside this library.

pub mod engine;
pub mod gain;
pub mod params;
pub mod text;
