//! The resistance temperature detector, on a converter and a bus of its own.

use vstd::prelude::*;
use crate::fixed::{saturate, saturate_i32};

verus! {

/// The reference resistance a new detector is set to, in hundredths of an ohm.
pub const RTD_REFERENCE: u32 = 30_000;

/// The largest reference resistance accepted, in hundredths of an ohm. The
/// temperature table extrapolates in 32-bit arithmetic and goes no further.
pub const RTD_REFERENCE_MAX: u32 = 1_000_000;

/// Resistance of a PT100 element at 100 °C, in hundredths of an ohm.
pub const PT100_AT_BOILING: u32 = 13_851;

/// The kind of sensing element. It is kept for whoever sets the hardware up;
/// resistances are converted by the table of a PT100.
#[derive(Clone, Copy, Debug, PartialEq, Eq)]
pub enum RtdType {
    Pt100,
    Pt1000,
}

/// How many wires connect the sensing element.
#[derive(Clone, Copy, Debug, PartialEq, Eq)]
pub enum RtdWires {
    Two,
    Three,
    Four,
}

/// The wiring that the converter distinguishes.
#[derive(Clone, Copy, Debug, PartialEq, Eq)]
pub enum RtdSensorType {
    TwoOrFourWire,
    ThreeWire,
}

/// The mains frequency that the converter filters out.
#[derive(Clone, Copy, Debug, PartialEq, Eq)]
pub enum RtdFilterMode {
    Filter60Hz,
    Filter50Hz,
}

/// What the converter is configured with.
#[derive(Clone, Copy, Debug, PartialEq, Eq)]
pub struct RtdConfig {
    /// Bias voltage on; needed to convert at all.
    pub vbias: bool,
    /// Convert automatically.
    pub conversion_mode: bool,
    /// One conversion per request.
    pub one_shot: bool,
    pub sensor_type: RtdSensorType,
    pub filter_mode: RtdFilterMode,
}

/// The wiring that the converter is told for a number of wires.
pub open spec fn sensor_type_of(wires: RtdWires) -> RtdSensorType {
    match wires {
        RtdWires::Two => RtdSensorType::TwoOrFourWire,
        RtdWires::Three => RtdSensorType::ThreeWire,
        RtdWires::Four => RtdSensorType::TwoOrFourWire,
    }
}

/// The resistance, in hundredths of an ohm, that a raw conversion stands for.
/// The upper 15 bits of `raw` are the ratio of the element to the reference
/// resistance `calibration`, in units of 2⁻¹⁵; the lowest bit is a flag.
pub open spec fn resistance_of(raw: int, calibration: int) -> int {
    ((raw / 2) * calibration) / 32_768
}

/// The reference resistance that makes a raw conversion taken in boiling
/// water read 100 °C on a PT100: the resistance of the element there, over
/// the ratio that the conversion reports.
pub open spec fn reference_of(raw: int) -> int {
    (PT100_AT_BOILING * 32_768) / (raw / 2)
}

/// The temperature, in hundredths of a degree Celsius, that
/// `lookup_temperature` of max31865 returns on its table `LOOKUP_VEC_PT100`
/// for a resistance in hundredths of an ohm.
pub uninterp spec fn pt100_temperature(ohm_100: int) -> int;

/// Calls `max31865::temp_conversion::LookupTable::lookup_temperature` on the
/// table `LOOKUP_VEC_PT100` of that crate. Nothing is proved of it; two
/// things are taken from its source. It reads its argument and that constant
/// table and nothing else, so that its result depends on the resistance
/// alone. And for a resistance from 0 to 10 kΩ it returns: the indices it
/// computes lie within the table, and the products it forms while it
/// interpolates, in 32 bits, stay in range.
#[verifier::external_body]
fn lookup_pt100(ohm_100: i32) -> (t: i32)
    requires
        0 <= ohm_100 <= 1_000_000,
    ensures
        t == pt100_temperature(ohm_100 as int),
{
    max31865::temp_conversion::LOOKUP_VEC_PT100.lookup_temperature(ohm_100)
}

/// Computes the resistance that a raw conversion stands for.
pub fn resistance(raw: u16, calibration: u32) -> (ohm_100: u32)
    ensures
        ohm_100 == resistance_of(raw as int, calibration as int),
        ohm_100 <= calibration,
    no_unwind
{
    let ratio: u64 = (raw / 2) as u64;
    proof {
        assert(ratio * calibration <= 32_767 * calibration) by (nonlinear_arith)
            requires
                0 <= ratio <= 32_767,
                0 <= calibration,
        ;
    }
    let ohm: u64 = (ratio * (calibration as u64)) / 32_768;
    ohm as u32
}

/// Converts hundredths of a degree Celsius to µ°C.
pub fn temperature_from_centidegrees(t: i32) -> (T: i32)
    ensures
        T == saturate(t * 10_000),
    no_unwind
{
    saturate_i32((t as i128) * 10_000)
}

/// The state of a detector.
pub struct RtdView {
    pub type_: RtdType,
    pub wires: RtdWires,
    /// The reference resistance, in hundredths of an ohm.
    pub calibration: u32,
}

impl RtdView {
    /// The temperature, in µ°C, that the detector reads from a raw
    /// conversion.
    pub open spec fn temperature_of(self, raw: u16) -> int {
        saturate(
            pt100_temperature(resistance_of(raw as int, self.calibration as int)) * 10_000,
        )
    }

    /// What calibrating on a raw conversion gives: the new reference
    /// resistance, where the conversion yields one within the accepted range.
    pub open spec fn calibrated_on(self, raw: u16) -> Option<u32> {
        if raw / 2 != 0 && reference_of(raw as int) <= RTD_REFERENCE_MAX {
            Some(reference_of(raw as int) as u32)
        } else {
            None
        }
    }
}

/// A resistance temperature detector. Its reference resistance never exceeds
/// `RTD_REFERENCE_MAX`.
pub struct Rtd {
    type_: RtdType,
    wires: RtdWires,
    calibration: u32,
}

impl View for Rtd {
    type V = RtdView;

    closed spec fn view(&self) -> RtdView {
        RtdView { type_: self.type_, wires: self.wires, calibration: self.calibration }
    }
}

impl Rtd {
    #[verifier::type_invariant]
    closed spec fn inv(self) -> bool {
        self.calibration <= RTD_REFERENCE_MAX
    }

    /// A detector with the reference resistance of the board, 300 Ω.
    pub fn new(type_: RtdType, wires_: RtdWires) -> (rtd: Self)
        ensures
            rtd@ == (RtdView { type_, wires: wires_, calibration: RTD_REFERENCE }),
        no_unwind
    {
        Rtd { type_, wires: wires_, calibration: RTD_REFERENCE }
    }

    /// What the converter is to be configured with: biased, converting
    /// automatically and once per request, wired as the detector is, and
    /// filtering 60 Hz mains.
    pub fn config(&self) -> (c: RtdConfig)
        ensures
            c == (RtdConfig {
                vbias: true,
                conversion_mode: true,
                one_shot: true,
                sensor_type: sensor_type_of(self@.wires),
                filter_mode: RtdFilterMode::Filter60Hz,
            }),
        no_unwind
    {
        let sensor_type = match self.wires {
            RtdWires::Two => RtdSensorType::TwoOrFourWire,
            RtdWires::Three => RtdSensorType::ThreeWire,
            RtdWires::Four => RtdSensorType::TwoOrFourWire,
        };
        RtdConfig {
            vbias: true,
            conversion_mode: true,
            one_shot: true,
            sensor_type,
            filter_mode: RtdFilterMode::Filter60Hz,
        }
    }

    /// The temperature, in µ°C, that a raw conversion stands for.
    pub fn read(&self, raw: u16) -> (T: i32)
        ensures
            T == self@.temperature_of(raw),
    {
        proof {
            use_type_invariant(self);
        }
        let ohm_100 = resistance(raw, self.calibration);
        temperature_from_centidegrees(lookup_pt100(ohm_100 as i32))
    }

    /// Sets the reference resistance from a raw conversion taken with the
    /// element in boiling water, and returns it. A conversion that gives no
    /// reference within the accepted range changes nothing.
    pub fn calibrate(&mut self, raw: u16) -> (r: Option<u32>)
        ensures
            r == old(self)@.calibrated_on(raw),
            final(self)@ == (match r {
                Some(calibration) => RtdView { calibration, ..old(self)@ },
                None => old(self)@,
            }),
        no_unwind
    {
        let ratio: u32 = (raw / 2) as u32;
        if ratio == 0 {
            return None;
        }
        let c: u32 = (PT100_AT_BOILING * 32_768) / ratio;
        if c > RTD_REFERENCE_MAX {
            return None;
        }
        self.calibration = c;
        Some(c)
    }

    /// The kind of sensing element.
    pub fn type_(&self) -> (t: RtdType)
        ensures
            t == self@.type_,
        no_unwind
    {
        self.type_
    }

    /// The number of wires.
    pub fn wires(&self) -> (w: RtdWires)
        ensures
            w == self@.wires,
        no_unwind
    {
        self.wires
    }

    /// The reference resistance, in hundredths of an ohm.
    pub fn calibration(&self) -> (c: u32)
        ensures
            c == self@.calibration,
            c <= RTD_REFERENCE_MAX,
        no_unwind
    {
        proof {
            use_type_invariant(self);
        }
        self.calibration
    }
}

/// Calibration does what it is for: with the reference resistance computed
/// from a raw conversion, that same conversion reads the resistance of a
/// PT100 at 100 °C, to within a hundredth of an ohm.
pub proof fn lemma_calibration_reads_boiling(raw: u16)
    requires
        raw / 2 != 0,
    ensures
        13_850 <= resistance_of(raw as int, reference_of(raw as int)) <= 13_851,
{
    let ratio: int = (raw / 2) as int;
    let k: int = PT100_AT_BOILING * 32_768;
    let c: int = k / ratio;
    vstd::arithmetic::div_mod::lemma_fundamental_div_mod(k, ratio);
    assert(ratio * c <= k < ratio * c + ratio) by {
        assert(0 <= k % ratio < ratio);
    }
    assert(13_850 * 32_768 < ratio * c);
    assert(13_850 <= (ratio * c) / 32_768 <= 13_851);
}

} // verus!
