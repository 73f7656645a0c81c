//! The bank of host-automatable parameters: drive, output gain, and
//! the distortion-curve selector.
//!
//! The host reads and writes parameters as normalized values in
//! `[0, 1]`; here a normalized unit is a million, so the host's `0.5`
//! arrives as `500_000`. Drive maps affinely between its normalized
//! value and decibels and both gains are stored canonically in
//! decibels, all exact in fixed point. The one transcendental mapping
//! — the output gain's normalized value is its linear amplitude,
//! `10^(dB/20)` — is computed by the caller at the boundary, which
//! hands this bank the decibel equivalent.

use crate::engine;
use crate::gain::GainDb;
use crate::text;
use vstd::prelude::*;

verus! {

/// Number of host-visible parameters (drive, output gain, curve
/// selector, in that index order — the order is part of the host
/// contract).
pub const PARAMETER_COUNT: i32 = 3;

/// Ceiling of the drive control: normalized full scale maps to this
/// many decibels, zero to 0 dB. This constant is the one place the
/// ceiling of the single-sided mapping is configured.
pub const MAX_DRIVE_DB: i64 = 40;

/// Whether the curve selector is surfaced to the host as automatable.
/// An explicit design choice: drive and output gain always are, the
/// selector here is not.
pub const CURVE_SELECT_AUTOMATABLE: bool = false;

/// Bound on raw values accepted by `set_parameter`, far outside the
/// host's `[0, 1]` contract, so that the affine drive mapping cannot
/// overflow the fixed-point range.
pub const MAX_SET_MAGNITUDE: i64 = 1_000_000_000_000;

/// The three control values of the effect.
pub struct DistortParameters {
    drive: GainDb,
    out_gain: GainDb,
    fnidx: i64,
}

/// The normalized drive value recovered from `db` millionths of a
/// decibel: division by the ceiling, truncating toward zero as the
/// store's integer arithmetic does.
pub open spec fn spec_drive_normalized(db: int) -> int {
    if db >= 0 {
        db / (MAX_DRIVE_DB as int)
    } else {
        -((-db) / (MAX_DRIVE_DB as int))
    }
}

/// The display text of the curve selector: the active curve's name,
/// or the out-of-range value itself.
pub open spec fn spec_curve_text(sel: int) -> Seq<char> {
    match engine::spec_select_curve(sel) {
        engine::Curve::TanhSaturate => "Hyp. Tengant"@,
        engine::Curve::SineFold => "Sine"@,
        engine::Curve::LogCompress => "Log"@,
        engine::Curve::Identity => "Unknown range "@ + text::spec_fixed_text(sel),
    }
}

/// The decibel value (millionths) stored for a normalized drive
/// `value`: the affine mapping by the drive ceiling.
pub fn drive_db_from_normalized(value: i64) -> (r: i64)
    requires
        -MAX_SET_MAGNITUDE <= value <= MAX_SET_MAGNITUDE,
    ensures
        r as int == value * MAX_DRIVE_DB,
{
    value * MAX_DRIVE_DB
}

/// The normalized drive value (millionths) read back from `db`
/// millionths of a decibel: division by the ceiling, truncating
/// toward zero.
pub fn drive_normalized_from_db(db: i64) -> (r: i64)
    ensures
        r as int == spec_drive_normalized(db as int),
{
    if db >= 0 {
        ((db as u64) / (MAX_DRIVE_DB as u64)) as i64
    } else {
        let mag_db: u64 = if db == i64::MIN {
            9223372036854775808u64
        } else {
            (-db) as u64
        };
        let mag: u64 = mag_db / (MAX_DRIVE_DB as u64);
        proof {
            assert(mag <= 230584300921369395) by (nonlinear_arith)
                requires
                    mag == mag_db / 40u64,
                    mag_db <= 9223372036854775808u64,
            ;
        }
        -(mag as i64)
    }
}

impl DistortParameters {
    /// The drive gain, in millionths of a decibel.
    pub closed spec fn drive_micro_db(self) -> int {
        self.drive.micro_decibels()
    }

    /// The output gain, in millionths of a decibel.
    pub closed spec fn out_gain_micro_db(self) -> int {
        self.out_gain.micro_decibels()
    }

    /// The normalized curve selector, in millionths of a unit.
    pub closed spec fn curve_sel(self) -> int {
        self.fnidx as int
    }

    /// A bank holding one consistent snapshot of the three stored
    /// values, as the audio thread takes at the start of a block:
    /// both gains in millionths of a decibel, the selector in
    /// millionths of a unit.
    pub fn snapshot(drive_micro_db: i64, out_gain_micro_db: i64, curve_sel: i64) -> (r: Self)
        ensures
            r.drive_micro_db() == drive_micro_db as int,
            r.out_gain_micro_db() == out_gain_micro_db as int,
            r.curve_sel() == curve_sel as int,
    {
        DistortParameters {
            drive: GainDb::new_from_micro_decibels(drive_micro_db),
            out_gain: GainDb::new_from_micro_decibels(out_gain_micro_db),
            fnidx: curve_sel,
        }
    }

    /// The fixed per-index parameter name shown by the host.
    pub fn get_parameter_name(&self, index: i32) -> (r: String)
        ensures
            index == 0 ==> r@ == "Drive"@,
            index == 1 ==> r@ == "Out Gain"@,
            index == 2 ==> r@ == "Dist. function"@,
            !(0 <= index <= 2) ==> r@ == "Not Implemented"@,
    {
        if index == 0 {
            String::from_str("Drive")
        } else if index == 1 {
            String::from_str("Out Gain")
        } else if index == 2 {
            String::from_str("Dist. function")
        } else {
            String::from_str("Not Implemented")
        }
    }

    /// The rendered current value of a parameter: decibel text for the
    /// two gains, the active curve's name (or the stray value) for the
    /// selector, and a sentinel for an unknown index.
    pub fn get_parameter_text(&self, index: i32) -> (r: String)
        ensures
            index == 0 ==> r@ == text::spec_db_text(self.drive_micro_db()),
            index == 1 ==> r@ == text::spec_db_text(self.out_gain_micro_db()),
            index == 2 ==> r@ == spec_curve_text(self.curve_sel()),
            !(0 <= index <= 2) ==> r@ == "Not Implemented"@,
    {
        if index == 0 {
            self.drive.text()
        } else if index == 1 {
            self.out_gain.text()
        } else if index == 2 {
            match engine::select_curve(self.fnidx) {
                engine::Curve::TanhSaturate => String::from_str("Hyp. Tengant"),
                engine::Curve::SineFold => String::from_str("Sine"),
                engine::Curve::LogCompress => String::from_str("Log"),
                engine::Curve::Identity => {
                    let mut s = String::from_str("Unknown range ");
                    let v = text::fixed_text(self.fnidx);
                    s.append(v.as_str());
                    s
                },
            }
        } else {
            String::from_str("Not Implemented")
        }
    }

    /// Reads a parameter for the host. Drive comes back on the
    /// normalized scale (the stored decibels divided by the ceiling),
    /// the output gain as its decibel value — the caller turns it into
    /// the linear amplitude the host expects — and the selector as
    /// stored. An index outside the bank is the caller's error.
    pub fn get_parameter(&self, index: i32) -> (r: i64)
        requires
            0 <= index <= 2,
        ensures
            index == 0 ==> r as int == spec_drive_normalized(self.drive_micro_db()),
            index == 1 ==> r as int == self.out_gain_micro_db(),
            index == 2 ==> r as int == self.curve_sel(),
    {
        if index == 0 {
            drive_normalized_from_db(self.drive.get_micro_decibels())
        } else if index == 1 {
            self.out_gain.get_micro_decibels()
        } else {
            self.fnidx
        }
    }

    /// Writes a parameter for the host: drive stores its normalized
    /// `value` times the decibel ceiling, the output gain stores
    /// `value` as millionths of a decibel (the caller has already
    /// turned the host's linear amplitude into decibels), the selector
    /// stores `value` unchanged, and any other index is silently
    /// ignored, leaving the bank as it was.
    pub fn set_parameter(&mut self, index: i32, value: i64)
        requires
            -MAX_SET_MAGNITUDE <= value <= MAX_SET_MAGNITUDE,
        ensures
            index == 0 ==> final(self).drive_micro_db() == value * MAX_DRIVE_DB
                && final(self).out_gain_micro_db() == old(self).out_gain_micro_db()
                && final(self).curve_sel() == old(self).curve_sel(),
            index == 1 ==> final(self).out_gain_micro_db() == value as int
                && final(self).drive_micro_db() == old(self).drive_micro_db()
                && final(self).curve_sel() == old(self).curve_sel(),
            index == 2 ==> final(self).curve_sel() == value as int
                && final(self).drive_micro_db() == old(self).drive_micro_db()
                && final(self).out_gain_micro_db() == old(self).out_gain_micro_db(),
            !(0 <= index <= 2) ==> final(self).drive_micro_db() == old(self).drive_micro_db()
                && final(self).out_gain_micro_db() == old(self).out_gain_micro_db()
                && final(self).curve_sel() == old(self).curve_sel(),
    {
        if index == 0 {
            self.drive.set_micro_decibels(drive_db_from_normalized(value));
        } else if index == 1 {
            self.out_gain.set_micro_decibels(value);
        } else if index == 2 {
            self.fnidx = value;
        }
    }

    /// Whether the host may automate the parameter at `index`: the two
    /// gains always, the curve selector by configuration, nothing
    /// else.
    pub fn can_be_automated(&self, index: i32) -> (r: bool)
        ensures
            r == (index == 0 || index == 1 || (index == 2 && CURVE_SELECT_AUTOMATABLE)),
    {
        if index == 0 || index == 1 {
            true
        } else if index == 2 {
            CURVE_SELECT_AUTOMATABLE
        } else {
            false
        }
    }
}

impl Default for DistortParameters {
    /// A fresh bank: drive 0 dB (unity), output gain 0 dB (unity),
    /// selector 0 (the first curve).
    fn default() -> (r: Self)
        ensures
            r.drive_micro_db() == 0,
            r.out_gain_micro_db() == 0,
            r.curve_sel() == 0,
    {
        DistortParameters {
            drive: GainDb::new_from_micro_decibels(0),
            out_gain: GainDb::new_from_micro_decibels(0),
            fnidx: 0,
        }
    }
}

/// Law: writing a normalized drive value and reading it back is the
/// identity on the normalized range — the affine decibel mapping loses
/// nothing.
pub proof fn lemma_drive_round_trip(value: int)
    requires
        0 <= value,
    ensures
        spec_drive_normalized(value * MAX_DRIVE_DB) == value,
{
    assert((value * (MAX_DRIVE_DB as int)) / (MAX_DRIVE_DB as int) == value)
        by (nonlinear_arith)
        requires
            0 <= value,
    ;
}

} // verus!
