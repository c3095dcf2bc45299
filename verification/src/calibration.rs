//! Calibration points and the temperature a reading is compensated with.

use vstd::prelude::*;

verus! {

/// Names the calibration point that a capture overwrites.
#[derive(Debug, Clone, Copy, PartialEq, Eq)]
pub enum CalSlot {
    One,
    Two,
    Three,
}

/// Where the temperature of a reading comes from.
#[derive(Debug, Clone, Copy, PartialEq, Eq)]
pub enum TempSource {
    /// The raw sample taken from the board's own temperature tap.
    OnBoard(i16),
    /// A temperature measured elsewhere, in millionths of a degree Celsius.
    OffBoard(i32),
}

/// A pH calibration point: the electrode voltage (µV) seen in a buffer of
/// known pH (µpH) at a temperature (µ°C).
#[derive(Debug, Clone, Copy, PartialEq, Eq)]
pub struct CalPt {
    pub V: i32,
    pub pH: i32,
    pub T: i32,
}

impl CalPt {
    pub fn new(V: i32, pH: i32, T: i32) -> (pt: Self)
        ensures
            pt == (CalPt { V, pH, T }),
        no_unwind
    {
        Self { V, pH, T }
    }
}

/// An ORP calibration point: the electrode voltage (µV) seen in a solution of
/// known potential (millionths of a millivolt).
#[derive(Debug, Clone, Copy, PartialEq, Eq)]
pub struct CalPtOrp {
    pub V: i32,
    pub ORP: i32,
}

impl CalPtOrp {
    pub fn new(V: i32, ORP: i32) -> (pt: Self)
        ensures
            pt == (CalPtOrp { V, ORP }),
        no_unwind
    {
        Self { V, ORP }
    }
}

/// A temperature calibration point: a voltage (µV) and the temperature (µ°C)
/// it stands for.
#[derive(Debug, Clone, Copy, PartialEq, Eq)]
pub struct CalPtT {
    pub V: i32,
    pub T: i32,
}

impl CalPtT {
    pub fn new(V: i32, T: i32) -> (pt: Self)
        ensures
            pt == (CalPtT { V, T }),
        no_unwind
    {
        Self { V, T }
    }
}

} // verus!
