//! The decibel gain store.
//!
//! A gain value is canonically held in decibels, in fixed point:
//! one unit is a millionth of a decibel. The linear-amplitude view
//! (`10^(dB/20)`) is transcendental and is computed by the caller at
//! the boundary; this store owns the canonical value and its display
//! text.

use crate::text;
use vstd::prelude::*;

verus! {

/// A gain value, canonically stored as millionths of a decibel.
#[derive(Clone, Copy, Debug, PartialEq, Eq, Structural)]
pub struct GainDb {
    micro_db: i64,
}

/// The `GainDb` holding `db` millionths of a decibel.
pub closed spec fn spec_from_micro_decibels(db: i64) -> GainDb {
    GainDb { micro_db: db }
}

impl GainDb {
    /// The stored decibel value, in millionths of a decibel.
    pub closed spec fn micro_decibels(self) -> int {
        self.micro_db as int
    }

    /// Constructs a store holding `db` millionths of a decibel.
    pub fn new_from_micro_decibels(db: i64) -> (r: Self)
        ensures
            r == spec_from_micro_decibels(db),
            r.micro_decibels() == db as int,
    {
        GainDb { micro_db: db }
    }

    /// Reads the stored decibel value.
    pub fn get_micro_decibels(&self) -> (r: i64)
        ensures
            r as int == self.micro_decibels(),
    {
        self.micro_db
    }

    /// Overwrites the stored decibel value.
    pub fn set_micro_decibels(&mut self, db: i64)
        ensures
            final(self).micro_decibels() == db as int,
    {
        self.micro_db = db;
    }

    /// The display text of the stored value: two decimal places
    /// followed by `" dB"`.
    pub fn text(&self) -> (r: String)
        ensures
            r@ == text::spec_db_text(self.micro_decibels()),
    {
        text::db_text(self.micro_db)
    }
}

impl Default for GainDb {
    /// A fresh store reads 0 dB (unity linear gain).
    fn default() -> (r: Self)
        ensures
            r.micro_decibels() == 0,
    {
        GainDb { micro_db: 0 }
    }
}

/// Law: storing a decibel value and reading it back yields the value
/// unchanged — the store is exact, with no conversion on the raw
/// decibel path.
pub proof fn lemma_decibel_round_trip(db: i64)
    ensures
        spec_from_micro_decibels(db).micro_decibels() == db as int,
{
}

} // verus!
