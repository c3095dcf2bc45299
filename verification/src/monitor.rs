//! The water monitor: a pH channel and an ORP channel on one bus, and a
//! temperature detector on a bus of its own.
//!
//! Each of the two channels has a converter of its own, but the bus that
//! reaches them exists once. It is handed from one channel to the other, never
//! copied, and a channel that does not hold it cannot be read.

use vstd::prelude::*;
use crate::bus::{AdcAddr, ChannelId, DeviceOwnership};
use crate::calibration::{CalPt, CalPtOrp, CalPtT, TempSource};
use crate::conversion::{voltage_from_adc, voltage_of_sample};
use crate::error::Error;
use crate::estimator::Observation;
use crate::orp::{OrpSensor, OrpSensorView};
use crate::ph::{PhSensor, PhSensorView};
use crate::rtd::{Rtd, RtdView};

verus! {

/// The temperature that readings are compensated with while the detector
/// fails: 20 °C.
pub const FALLBACK_TEMP: i32 = 20_000_000;

/// One reading of every channel. Each stands for itself: the failure of one
/// channel shows in its own field only.
#[derive(Debug, PartialEq, Eq)]
pub struct Readings<E> {
    pub pH: Result<i32, Error<E>>,
    pub T: Result<i32, Error<E>>,
    pub ec: Result<i32, Error<E>>,
    pub ORP: Result<i32, Error<E>>,
}

/// The state of a water monitor.
pub struct WaterMonitorView<I2C> {
    pub ph: PhSensorView<I2C>,
    pub orp_ec: OrpSensorView<I2C>,
    /// The bus, while neither channel holds it.
    pub parked: Option<I2C>,
    pub rtd: RtdView,
    pub cal_temp_1: CalPtT,
    pub cal_temp_2: CalPtT,
}

impl<I2C> WaterMonitorView<I2C> {
    /// The bus is in exactly one place: with one of the channels, or parked.
    pub open spec fn wf(self) -> bool {
        ||| self.ph.device is Some && self.orp_ec.device is None && self.parked is None
        ||| self.ph.device is None && self.orp_ec.device is Some && self.parked is None
        ||| self.ph.device is None && self.orp_ec.device is None && self.parked is Some
    }

    /// Who holds the bus.
    pub open spec fn owner(self) -> DeviceOwnership {
        if self.ph.device is Some {
            DeviceOwnership::HeldBy(ChannelId::Ph)
        } else if self.orp_ec.device is Some {
            DeviceOwnership::HeldBy(ChannelId::OrpEc)
        } else {
            DeviceOwnership::Free
        }
    }

    /// The bus, wherever it is.
    pub open spec fn bus(self) -> I2C
        recommends
            self.wf(),
    {
        if self.ph.device is Some {
            self.ph.device.unwrap()
        } else if self.orp_ec.device is Some {
            self.orp_ec.device.unwrap()
        } else {
            self.parked.unwrap()
        }
    }

    /// The state with the bus `i2c` in the place of the bus.
    pub open spec fn with_bus(self, i2c: I2C) -> Self {
        if self.ph.device is Some {
            WaterMonitorView { ph: PhSensorView { device: Some(i2c), ..self.ph }, ..self }
        } else if self.orp_ec.device is Some {
            WaterMonitorView {
                orp_ec: OrpSensorView { device: Some(i2c), ..self.orp_ec },
                ..self
            }
        } else {
            WaterMonitorView { parked: Some(i2c), ..self }
        }
    }

    /// The state with the bus parked.
    pub open spec fn released(self) -> Self {
        WaterMonitorView {
            ph: PhSensorView { device: None, ..self.ph },
            orp_ec: OrpSensorView { device: None, ..self.orp_ec },
            parked: Some(self.bus()),
            ..self
        }
    }

    /// The state with the bus handed to `channel`, from wherever it was. A
    /// channel that holds the bus already keeps it as it has it.
    pub open spec fn holding(self, channel: ChannelId) -> Self {
        if self.owner() == DeviceOwnership::HeldBy(channel) {
            self
        } else {
            match channel {
                ChannelId::Ph => WaterMonitorView {
                    ph: PhSensorView { device: Some(self.bus()), ..self.ph },
                    orp_ec: OrpSensorView { device: None, ..self.orp_ec },
                    parked: None,
                    ..self
                },
                ChannelId::OrpEc => WaterMonitorView {
                    ph: PhSensorView { device: None, ..self.ph },
                    orp_ec: OrpSensorView {
                        device: Some(self.bus()),
                        bound: self.orp_ec.addr,
                        ..self.orp_ec
                    },
                    parked: None,
                    ..self
                },
            }
        }
    }

    /// What a channel's request for the bus leads to: a conflict while the
    /// other channel holds it, the bus otherwise.
    pub open spec fn acquired<E>(self, channel: ChannelId) -> Result<Self, Error<E>> {
        if self.owner() == DeviceOwnership::HeldBy(channel.other()) {
            Err(Error::OwnershipConflict)
        } else {
            Ok(self.holding(channel))
        }
    }

    /// What a channel's giving up the bus leads to: the bus parked, if the
    /// channel held it.
    pub open spec fn released_by<E>(self, channel: ChannelId) -> Result<Self, Error<E>> {
        if self.owner() == DeviceOwnership::HeldBy(channel) {
            Ok(self.released())
        } else {
            Err(Error::DeviceNotHeld)
        }
    }
}

/// The water monitor. Its bus is in exactly one place at any time: with the
/// pH channel, with the ORP channel, or parked between the two.
pub struct WaterMonitor<I2C, E> {
    ph: PhSensor<I2C, E>,
    orp_ec: OrpSensor<I2C, E>,
    parked: Option<I2C>,
    rtd: Rtd,
    cal_temp_1: CalPtT,
    cal_temp_2: CalPtT,
}

impl<I2C, E> View for WaterMonitor<I2C, E> {
    type V = WaterMonitorView<I2C>;

    closed spec fn view(&self) -> WaterMonitorView<I2C> {
        WaterMonitorView {
            ph: self.ph@,
            orp_ec: self.orp_ec@,
            parked: self.parked,
            rtd: self.rtd@,
            cal_temp_1: self.cal_temp_1,
            cal_temp_2: self.cal_temp_2,
        }
    }
}

impl<I2C, E> WaterMonitor<I2C, E> {
    #[verifier::type_invariant]
    closed spec fn inv(self) -> bool {
        self@.wf()
    }

    /// A monitor whose pH channel holds the bus. The pH converter answers at
    /// the default address and the ORP converter at the alternative one; both
    /// channels are read every `dt` microseconds.
    pub fn new(i2c: I2C, rtd: Rtd, dt: u32) -> (m: Self)
        ensures
            m@.wf(),
            m@.owner() == DeviceOwnership::HeldBy(ChannelId::Ph),
            m@.bus() == i2c,
            m@.ph == PhSensorView::fresh(Some(i2c), AdcAddr::Gnd, dt),
            m@.orp_ec == OrpSensorView::<I2C>::fresh(None, AdcAddr::Vdd, dt),
            m@.rtd == rtd@,
            m@.cal_temp_1 == (CalPtT { V: 135_000, T: 0 }),
            m@.cal_temp_2 == (CalPtT { V: 960_000, T: 85_000_000 }),
        no_unwind
    {
        WaterMonitor {
            ph: PhSensor::fresh(Some(i2c), AdcAddr::Gnd, dt),
            orp_ec: OrpSensor::fresh(None, AdcAddr::Vdd, dt),
            parked: None,
            rtd,
            cal_temp_1: CalPtT::new(135_000, 0),
            cal_temp_2: CalPtT::new(960_000, 85_000_000),
        }
    }

    /// Who holds the bus.
    pub fn owner(&self) -> (o: DeviceOwnership)
        ensures
            o == self@.owner(),
            self@.wf(),
        no_unwind
    {
        proof {
            use_type_invariant(self);
        }
        if self.ph.holds_device() {
            DeviceOwnership::HeldBy(ChannelId::Ph)
        } else if self.orp_ec.holds_device() {
            DeviceOwnership::HeldBy(ChannelId::OrpEc)
        } else {
            DeviceOwnership::Free
        }
    }

    /// Parks the bus, from wherever it is.
    fn park(&mut self)
        ensures
            final(self)@ == old(self)@.released(),
            final(self)@.wf(),
            old(self)@.wf(),
        no_unwind
    {
        proof {
            use_type_invariant(&*self);
        }
        if self.ph.holds_device() {
            self.ph.swap_device(&mut self.parked);
        } else if self.orp_ec.holds_device() {
            self.orp_ec.swap_device(&mut self.parked);
        }
    }

    /// Hands the bus to the pH channel, from wherever it is.
    pub fn ph_take(&mut self)
        ensures
            final(self)@ == old(self)@.holding(ChannelId::Ph),
            final(self)@.wf(),
            final(self)@.owner() == DeviceOwnership::HeldBy(ChannelId::Ph),
            final(self)@.bus() == old(self)@.bus(),
        no_unwind
    {
        proof {
            use_type_invariant(&*self);
        }
        if !self.ph.holds_device() {
            self.park();
            self.ph.swap_device(&mut self.parked);
        }
        proof {
            use_type_invariant(&*self);
        }
    }

    /// Hands the bus to the ORP channel, from wherever it is.
    pub fn orp_ec_take(&mut self)
        ensures
            final(self)@ == old(self)@.holding(ChannelId::OrpEc),
            final(self)@.wf(),
            final(self)@.owner() == DeviceOwnership::HeldBy(ChannelId::OrpEc),
            final(self)@.bus() == old(self)@.bus(),
        no_unwind
    {
        proof {
            use_type_invariant(&*self);
        }
        if !self.orp_ec.holds_device() {
            self.park();
            self.orp_ec.swap_device(&mut self.parked);
        }
    }

    /// Gives the bus to `channel`, unless the other channel holds it.
    pub fn acquire(&mut self, channel: ChannelId) -> (r: Result<(), Error<E>>)
        ensures
            final(self)@.wf(),
            final(self)@.bus() == old(self)@.bus(),
            match old(self)@.acquired::<E>(channel) {
                Ok(m) => r is Ok && final(self)@ == m && m.owner() == DeviceOwnership::HeldBy(
                    channel,
                ),
                Err(e) => r == Err::<(), Error<E>>(e) && final(self)@ == old(self)@,
            },
        no_unwind
    {
        proof {
            use_type_invariant(&*self);
        }
        match channel {
            ChannelId::Ph => {
                if self.orp_ec.holds_device() {
                    return Err(Error::OwnershipConflict);
                }
                self.ph_take();
            },
            ChannelId::OrpEc => {
                if self.ph.holds_device() {
                    return Err(Error::OwnershipConflict);
                }
                self.orp_ec_take();
            },
        }
        Ok(())
    }

    /// Takes the bus back from `channel` and parks it, if the channel holds
    /// it.
    pub fn release(&mut self, channel: ChannelId) -> (r: Result<(), Error<E>>)
        ensures
            final(self)@.wf(),
            final(self)@.bus() == old(self)@.bus(),
            match old(self)@.released_by::<E>(channel) {
                Ok(m) => r is Ok && final(self)@ == m && m.owner() == DeviceOwnership::Free,
                Err(e) => r == Err::<(), Error<E>>(e) && final(self)@ == old(self)@,
            },
        no_unwind
    {
        proof {
            use_type_invariant(&*self);
        }
        let held = match channel {
            ChannelId::Ph => self.ph.holds_device(),
            ChannelId::OrpEc => !self.ph.holds_device() && self.orp_ec.holds_device(),
        };
        if !held {
            return Err(Error::DeviceNotHeld);
        }
        self.park();
        Ok(())
    }

    /// The bus, for `channel` and as long as it holds it: nothing can be
    /// sampled without.
    pub fn device(&mut self, channel: ChannelId) -> (r: Result<&mut I2C, Error<E>>)
        ensures
            match r {
                Ok(i2c) => {
                    &&& old(self)@.owner() == DeviceOwnership::HeldBy(channel)
                    &&& *i2c == old(self)@.bus()
                    &&& final(self)@ == old(self)@.with_bus(*final(i2c))
                },
                Err(e) => {
                    &&& old(self)@.owner() != DeviceOwnership::HeldBy(channel)
                    &&& e == Error::<E>::DeviceNotHeld
                    &&& final(self)@ == old(self)@
                },
            },
            final(self)@.wf(),
        no_unwind
    {
        proof {
            use_type_invariant(&*self);
        }
        match channel {
            ChannelId::Ph => self.ph.device(),
            ChannelId::OrpEc => self.orp_ec.device(),
        }
    }

    /// The temperature, in µ°C, that a raw conversion of the detector stands
    /// for.
    pub fn read_temp(&self, raw: u16) -> (r: Result<i32, Error<E>>)
        ensures
            r == Ok::<i32, Error<E>>(self@.rtd.temperature_of(raw) as i32),
    {
        Ok(self.rtd.read(raw))
    }

    /// Hands the bus to the pH channel and reads the pH from a sample of the
    /// electrode, for the estimator.
    pub fn read_ph(&mut self, sample: i16, t: TempSource) -> (r: Result<Observation, Error<E>>)
        ensures
            final(self)@.wf(),
            ({
                let m = old(self)@.holding(ChannelId::Ph);
                let pH = m.ph.read_raw::<E>(sample, t);
                &&& r == (match pH {
                    Ok(pH) => Ok(m.ph.observe(pH)),
                    Err(e) => Err(e),
                })
                &&& final(self)@ == (WaterMonitorView { ph: m.ph.after_reading(pH), ..m })
            }),
        no_unwind
    {
        proof {
            use_type_invariant(&*self);
        }
        self.ph_take();
        self.ph.update(sample, t)
    }

    /// Hands the bus to the ORP channel and reads the potential from a sample
    /// of the electrode, for the estimator.
    pub fn read_orp(&mut self, sample: i16) -> (r: Result<Observation, Error<E>>)
        ensures
            final(self)@.wf(),
            ({
                let m = old(self)@.holding(ChannelId::OrpEc);
                let orp = m.orp_ec.read_raw::<E>(sample);
                &&& r == (match orp {
                    Ok(orp) => Ok(m.orp_ec.observe(orp)),
                    Err(e) => Err(e),
                })
                &&& final(self)@ == (WaterMonitorView { orp_ec: m.orp_ec.after_reading(orp), ..m })
            }),
        no_unwind
    {
        proof {
            use_type_invariant(&*self);
        }
        self.orp_ec_take();
        self.orp_ec.update(sample)
    }

    /// Hands the bus to the pH channel and converts a sample of the pH
    /// electrode to microvolts.
    pub fn read_ph_voltage(&mut self, sample: i16) -> (r: Result<i32, Error<E>>)
        ensures
            r == Ok::<i32, Error<E>>(voltage_of_sample(sample as int) as i32),
            final(self)@ == old(self)@.holding(ChannelId::Ph),
            final(self)@.wf(),
        no_unwind
    {
        proof {
            use_type_invariant(&*self);
        }
        self.ph_take();
        self.ph.read_voltage(sample)
    }

    /// Hands the bus to the pH channel and converts a sample of the
    /// temperature output, on the same converter, to microvolts.
    pub fn read_temp_voltage(&mut self, sample: i16) -> (r: Result<i32, Error<E>>)
        ensures
            r == Ok::<i32, Error<E>>(voltage_of_sample(sample as int) as i32),
            final(self)@ == old(self)@.holding(ChannelId::Ph),
            final(self)@.wf(),
        no_unwind
    {
        proof {
            use_type_invariant(&*self);
        }
        self.ph_take();
        Ok(voltage_from_adc(sample))
    }

    /// Hands the bus to the ORP channel and converts a sample of the ORP
    /// electrode to microvolts.
    pub fn read_orp_voltage(&mut self, sample: i16) -> (r: Result<i32, Error<E>>)
        ensures
            r == Ok::<i32, Error<E>>(voltage_of_sample(sample as int) as i32),
            final(self)@ == old(self)@.holding(ChannelId::OrpEc),
            final(self)@.wf(),
        no_unwind
    {
        proof {
            use_type_invariant(&*self);
        }
        self.orp_ec_take();
        self.orp_ec.read_voltage(sample)
    }

    /// Replaces all calibration points of the pH channel.
    pub fn calibrate_all_ph(&mut self, pt0: CalPt, pt1: CalPt, pt2: Option<CalPt>)
        ensures
            final(self)@ == (WaterMonitorView {
                ph: PhSensorView { cal_1: pt0, cal_2: pt1, cal_3: pt2, ..old(self)@.ph },
                ..old(self)@
            }),
            final(self)@.wf(),
        no_unwind
    {
        proof {
            use_type_invariant(&*self);
        }
        self.ph.calibrate_all(pt0, pt1, pt2);
    }

    /// Replaces both calibration points of the temperature output.
    pub fn calibrate_all_temp(&mut self, pt0: CalPtT, pt1: CalPtT)
        ensures
            final(self)@ == (WaterMonitorView { cal_temp_1: pt0, cal_temp_2: pt1, ..old(self)@ }),
            final(self)@.wf(),
        no_unwind
    {
        proof {
            use_type_invariant(&*self);
        }
        self.cal_temp_1 = pt0;
        self.cal_temp_2 = pt1;
    }

    /// Replaces the calibration point of the ORP channel.
    pub fn calibrate_all_orp(&mut self, pt: CalPtOrp)
        ensures
            final(self)@ == (WaterMonitorView {
                orp_ec: OrpSensorView { cal: pt, ..old(self)@.orp_ec },
                ..old(self)@
            }),
            final(self)@.wf(),
        no_unwind
    {
        proof {
            use_type_invariant(&*self);
        }
        self.orp_ec.calibrate_all(pt);
    }

    /// The pH channel.
    pub fn ph(&self) -> (ph: &PhSensor<I2C, E>)
        ensures
            ph@ == self@.ph,
        no_unwind
    {
        &self.ph
    }

    /// The ORP channel.
    pub fn orp_ec(&self) -> (orp_ec: &OrpSensor<I2C, E>)
        ensures
            orp_ec@ == self@.orp_ec,
        no_unwind
    {
        &self.orp_ec
    }

    /// The temperature detector.
    pub fn rtd(&self) -> (rtd: &Rtd)
        ensures
            rtd@ == self@.rtd,
        no_unwind
    {
        &self.rtd
    }

    /// The calibration points of the temperature output.
    pub fn temp_calibration(&self) -> (points: (CalPtT, CalPtT))
        ensures
            points == (self@.cal_temp_1, self@.cal_temp_2),
        no_unwind
    {
        (self.cal_temp_1, self.cal_temp_2)
    }

    /// Begins a reading of all channels: hands the bus to the pH channel and
    /// asks for the temperature.
    pub fn read_all(&mut self) -> (cycle: ReadAll<E>)
        ensures
            cycle == ReadAll::<E>::Temperature,
            final(self)@ == old(self)@.holding(ChannelId::Ph),
            final(self)@.wf(),
        no_unwind
    {
        proof {
            use_type_invariant(&*self);
        }
        self.ph_take();
        ReadAll::Temperature
    }

    /// Takes the result of what was asked for and goes on with the reading of
    /// all channels. The bus is handed to the channel that the next request
    /// is for, and back to the pH channel at the end.
    pub fn read_all_next(
        &mut self,
        cycle: ReadAll<E>,
        result: Result<i32, Error<E>>,
    ) -> (step: ReadAllStep<E>)
        ensures
            step == cycle.advanced(result),
            final(self)@ == old(self)@.holding(
                match step {
                    ReadAllStep::Next(next) => next.holder(),
                    ReadAllStep::Done(_) => ChannelId::Ph,
                },
            ),
            final(self)@.wf(),
        no_unwind
    {
        proof {
            use_type_invariant(&*self);
        }
        match cycle {
            ReadAll::Temperature => {
                self.ph_take();
                ReadAllStep::Next(ReadAll::Ph { T: result })
            },
            ReadAll::Ph { T } => {
                self.orp_ec_take();
                ReadAllStep::Next(ReadAll::Orp { T, pH: result })
            },
            ReadAll::Orp { T, pH } => {
                self.orp_ec_take();
                ReadAllStep::Next(ReadAll::Ec { T, pH, ORP: result })
            },
            ReadAll::Ec { T, pH, ORP } => {
                self.ph_take();
                ReadAllStep::Done(Readings { pH, T, ec: result, ORP })
            },
        }
    }
}

/// What a reading of all channels asks its driver for.
#[derive(Debug, Clone, Copy, PartialEq, Eq)]
pub enum ReadRequest {
    /// The temperature of the detector.
    Temperature,
    /// The pH, compensated for the temperature `temp`.
    Ph { temp: i32 },
    /// The oxidation-reduction potential.
    Orp,
    /// The conductivity, compensated for the temperature `temp`.
    Ec { temp: i32 },
}

/// A reading of all channels under way: what is asked for next, and the
/// results so far.
#[derive(Debug, PartialEq, Eq)]
pub enum ReadAll<E> {
    Temperature,
    Ph { T: Result<i32, Error<E>> },
    Orp { T: Result<i32, Error<E>>, pH: Result<i32, Error<E>> },
    Ec { T: Result<i32, Error<E>>, pH: Result<i32, Error<E>>, ORP: Result<i32, Error<E>> },
}

/// How a reading of all channels goes on.
#[derive(Debug, PartialEq, Eq)]
pub enum ReadAllStep<E> {
    /// There is more to read.
    Next(ReadAll<E>),
    /// Every channel has been read.
    Done(Readings<E>),
}

/// The temperature to compensate with: the one that was measured, and 20 °C
/// where the measurement failed.
pub open spec fn compensation_temp_of<E>(T: Result<i32, Error<E>>) -> i32 {
    match T {
        Ok(temp) => temp,
        Err(_) => FALLBACK_TEMP,
    }
}

/// Chooses the temperature to compensate with.
pub fn compensation_temp<E>(T: &Result<i32, Error<E>>) -> (temp: i32)
    ensures
        temp == compensation_temp_of(*T),
    no_unwind
{
    match T {
        Ok(temp) => *temp,
        Err(_) => FALLBACK_TEMP,
    }
}

impl<E> ReadAll<E> {
    /// What is asked for.
    pub open spec fn requested(self) -> ReadRequest {
        match self {
            ReadAll::Temperature => ReadRequest::Temperature,
            ReadAll::Ph { T } => ReadRequest::Ph { temp: compensation_temp_of(T) },
            ReadAll::Orp { .. } => ReadRequest::Orp,
            ReadAll::Ec { T, .. } => ReadRequest::Ec { temp: compensation_temp_of(T) },
        }
    }

    /// The channel that holds the bus while the request is served.
    pub open spec fn holder(self) -> ChannelId {
        match self {
            ReadAll::Temperature => ChannelId::Ph,
            ReadAll::Ph { .. } => ChannelId::Ph,
            ReadAll::Orp { .. } => ChannelId::OrpEc,
            ReadAll::Ec { .. } => ChannelId::OrpEc,
        }
    }

    /// How the reading goes on with the result of what was asked for.
    pub open spec fn advanced(self, result: Result<i32, Error<E>>) -> ReadAllStep<E> {
        match self {
            ReadAll::Temperature => ReadAllStep::Next(ReadAll::Ph { T: result }),
            ReadAll::Ph { T } => ReadAllStep::Next(ReadAll::Orp { T, pH: result }),
            ReadAll::Orp { T, pH } => ReadAllStep::Next(ReadAll::Ec { T, pH, ORP: result }),
            ReadAll::Ec { T, pH, ORP } => ReadAllStep::Done(Readings { pH, T, ec: result, ORP }),
        }
    }

    /// What is asked for.
    pub fn request(&self) -> (request: ReadRequest)
        ensures
            request == self.requested(),
        no_unwind
    {
        match self {
            ReadAll::Temperature => ReadRequest::Temperature,
            ReadAll::Ph { T } => ReadRequest::Ph { temp: compensation_temp(T) },
            ReadAll::Orp { .. } => ReadRequest::Orp,
            ReadAll::Ec { T, .. } => ReadRequest::Ec { temp: compensation_temp(T) },
        }
    }
}

/// A reading of all channels asks for the temperature, the pH, the potential
/// and the conductivity, in this order, and reports each result as it came:
/// the failure of one channel changes no other field. Only the temperature
/// is used further, to compensate: 20 °C stands in where its reading failed.
pub proof fn lemma_read_all_keeps_each_result<E>(
    T: Result<i32, Error<E>>,
    pH: Result<i32, Error<E>>,
    ORP: Result<i32, Error<E>>,
    ec: Result<i32, Error<E>>,
)
    ensures
        ({
            let first = ReadAll::<E>::Temperature;
            &&& first.requested() == ReadRequest::Temperature
            &&& first.advanced(T) matches ReadAllStep::Next(second)
            &&& second.requested() == ReadRequest::Ph { temp: compensation_temp_of(T) }
            &&& second.advanced(pH) matches ReadAllStep::Next(third)
            &&& third.requested() == ReadRequest::Orp
            &&& third.advanced(ORP) matches ReadAllStep::Next(fourth)
            &&& fourth.requested() == ReadRequest::Ec { temp: compensation_temp_of(T) }
            &&& fourth.advanced(ec) == ReadAllStep::Done(Readings { pH, T, ec, ORP })
        }),
{
}

/// Ownership of the bus is exclusive. Once a channel has acquired the bus,
/// the other channel's request for it fails with a conflict; after the first
/// channel has released it, the other channel's request succeeds, the bus is
/// the same one, and the first channel can no longer be read.
pub proof fn lemma_ownership_exclusive<I2C, E>(
    m: WaterMonitorView<I2C>,
    first: ChannelId,
    sample: i16,
    t: TempSource,
)
    requires
        m.wf(),
        m.owner() != DeviceOwnership::HeldBy(first.other()),
    ensures
        ({
            let second = first.other();
            &&& m.acquired::<E>(first) matches Ok(held)
            &&& held.wf() && held.owner() == DeviceOwnership::HeldBy(first)
            &&& held.acquired::<E>(second) == Err::<WaterMonitorView<I2C>, Error<E>>(
                Error::OwnershipConflict,
            )
            &&& held.released_by::<E>(first) matches Ok(free)
            &&& free.wf() && free.owner() == DeviceOwnership::Free
            &&& free.acquired::<E>(second) matches Ok(moved)
            &&& moved.wf() && moved.owner() == DeviceOwnership::HeldBy(second)
            &&& moved.bus() == m.bus()
            &&& match first {
                ChannelId::Ph => moved.ph.read_raw::<E>(sample, t) == Err::<i32, Error<E>>(
                    Error::DeviceNotHeld,
                ),
                ChannelId::OrpEc => moved.orp_ec.read_raw::<E>(sample) == Err::<i32, Error<E>>(
                    Error::DeviceNotHeld,
                ),
            }
        }),
{
}

} // verus!
