//! The oxidation-reduction potential channel.

use vstd::prelude::*;
use std::marker::PhantomData;
use crate::bus::AdcAddr;
use crate::calibration::CalPtOrp;
use crate::conversion::{
    orp_from_voltage, orp_of_voltage, temp_from_voltage, temp_of_voltage, voltage_from_adc,
    voltage_of_sample,
};
use crate::error::Error;
use crate::estimator::{discrete_jump, is_jump, EstimatorStep, Observation};
use crate::fixed::saturate;

verus! {

/// An ORP reading that differs from the one before it by more than this is a
/// step change, not noise: 30 mV.
pub const DISCRETE_ORP_JUMP_THRESH: i32 = 30_000_000;

/// Standard deviation of the noise on an ORP reading: 10 mV.
pub const ORP_STD: i32 = 10_000_000;

/// The state of an ORP channel.
pub struct OrpSensorView<I2C> {
    /// The bus, while the channel holds it.
    pub device: Option<I2C>,
    /// The address of the channel's converter.
    pub addr: AdcAddr,
    /// The address under which the bus was last taken.
    pub bound: AdcAddr,
    /// Time between two readings, in microseconds.
    pub dt: u32,
    /// The last unfiltered reading.
    pub last_meas: i32,
    pub cal: CalPtOrp,
}

impl<I2C> OrpSensorView<I2C> {
    /// The state of a new channel: calibrated as an ideal electrode, with no
    /// potential as its last reading.
    pub open spec fn fresh(device: Option<I2C>, addr: AdcAddr, dt: u32) -> Self {
        OrpSensorView {
            device,
            addr,
            bound: addr,
            dt,
            last_meas: 0,
            cal: CalPtOrp { V: 400_000, ORP: 400_000_000 },
        }
    }

    /// Whether the calibration point defines a conversion.
    pub open spec fn calibrated(self) -> bool {
        self.cal.V != 0
    }

    /// The potential that the channel reads from a sample of its electrode.
    pub open spec fn reading(self, sample: i16) -> int {
        saturate(orp_of_voltage(voltage_of_sample(sample as int), self.cal))
    }

    /// What reading the potential from a sample gives: the reading, unless
    /// the channel does not hold the bus or has no calibration to read by.
    pub open spec fn read_raw<E>(self, sample: i16) -> Result<i32, Error<E>> {
        if self.device is None {
            Err(Error::DeviceNotHeld)
        } else if !self.calibrated() {
            Err(Error::CalibrationUnset)
        } else {
            Ok(self.reading(sample) as i32)
        }
    }

    /// What reading the electrode voltage from a sample gives.
    pub open spec fn read_voltage<E>(self, sample: i16) -> Result<i32, Error<E>> {
        if self.device is None {
            Err(Error::DeviceNotHeld)
        } else {
            Ok(voltage_of_sample(sample as int) as i32)
        }
    }

    /// What reading the board temperature from a sample gives.
    pub open spec fn read_temp<E>(self, sample: i16) -> Result<i32, Error<E>> {
        if self.device is None {
            Err(Error::DeviceNotHeld)
        } else {
            Ok(temp_of_voltage(voltage_of_sample(sample as int)) as i32)
        }
    }

    /// What capturing the calibration point from a sample gives: the voltage
    /// of the sample, unless the channel does not hold the bus.
    pub open spec fn capture<E>(self, sample: i16) -> Result<i32, Error<E>> {
        self.read_voltage(sample)
    }

    /// The observation that a reading makes for the estimator: reset where
    /// the reading lies further from the last one than the threshold.
    pub open spec fn observe(self, orp: i32) -> Observation {
        Observation {
            value: orp,
            reset: is_jump(orp as int, self.last_meas as int, DISCRETE_ORP_JUMP_THRESH as int),
        }
    }

    /// The state after a reading: a reading that succeeded is remembered.
    pub open spec fn after_reading<E>(self, r: Result<i32, Error<E>>) -> Self {
        match r {
            Ok(orp) => OrpSensorView { last_meas: orp, ..self },
            Err(_) => self,
        }
    }
}

/// An ORP electrode on a converter that shares its bus with other channels.
/// It is read like the pH electrode, but through a single calibration point
/// and without compensation for temperature.
pub struct OrpSensor<I2C, E> {
    adc: Option<I2C>,
    addr: AdcAddr,
    bound: AdcAddr,
    dt: u32,
    last_meas: i32,
    cal: CalPtOrp,
    bus_error: PhantomData<E>,
}

impl<I2C, E> View for OrpSensor<I2C, E> {
    type V = OrpSensorView<I2C>;

    closed spec fn view(&self) -> OrpSensorView<I2C> {
        OrpSensorView {
            device: self.adc,
            addr: self.addr,
            bound: self.bound,
            dt: self.dt,
            last_meas: self.last_meas,
            cal: self.cal,
        }
    }
}

impl<I2C, E> OrpSensor<I2C, E> {
    /// A new channel, with or without the bus.
    pub(crate) fn fresh(device: Option<I2C>, addr: AdcAddr, dt: u32) -> (s: Self)
        ensures
            s@ == OrpSensorView::fresh(device, addr, dt),
        no_unwind
    {
        Self {
            adc: device,
            addr,
            bound: addr,
            dt,
            last_meas: 0,
            cal: CalPtOrp::new(400_000, 400_000_000),
            bus_error: PhantomData,
        }
    }

    /// A channel that holds the bus, on the converter at the default address,
    /// read every `dt` microseconds.
    pub fn new(i2c: I2C, dt: u32) -> (s: Self)
        ensures
            s@ == OrpSensorView::fresh(Some(i2c), AdcAddr::Gnd, dt),
        no_unwind
    {
        Self::fresh(Some(i2c), AdcAddr::Gnd, dt)
    }

    /// As `new`, on the converter at the alternative address: the place of the
    /// channel in the water monitor.
    pub fn new_alt_addr(i2c: I2C, dt: u32) -> (s: Self)
        ensures
            s@ == OrpSensorView::fresh(Some(i2c), AdcAddr::Vdd, dt),
        no_unwind
    {
        Self::fresh(Some(i2c), AdcAddr::Vdd, dt)
    }

    /// Whether the channel holds the bus.
    pub fn holds_device(&self) -> (held: bool)
        ensures
            held == self@.device is Some,
        no_unwind
    {
        match &self.adc {
            Some(_) => true,
            None => false,
        }
    }

    /// Gives up the bus. The channel must hold it.
    pub fn free(&mut self) -> (i2c: I2C)
        requires
            old(self)@.device is Some,
        ensures
            old(self)@.device == Some(i2c),
            final(self)@ == (OrpSensorView { device: None, ..old(self)@ }),
    {
        self.adc.take().unwrap()
    }

    /// Exchanges what the channel holds with what `slot` holds: the bus
    /// passes between the two without ever being in neither. A bus that comes
    /// in is taken under the address of the channel's converter.
    pub(crate) fn swap_device(&mut self, slot: &mut Option<I2C>)
        ensures
            final(self)@ == (OrpSensorView {
                device: *old(slot),
                bound: if *old(slot) is Some {
                    old(self)@.addr
                } else {
                    old(self)@.bound
                },
                ..old(self)@
            }),
            *final(slot) == old(self)@.device,
        no_unwind
    {
        core::mem::swap(&mut self.adc, slot);
        match &self.adc {
            Some(_) => {
                self.bound = self.addr;
            },
            None => {},
        }
    }

    /// Takes the bus, under the address of the channel's converter.
    pub fn unfree(&mut self, i2c: I2C)
        ensures
            final(self)@ == (OrpSensorView {
                device: Some(i2c),
                bound: old(self)@.addr,
                ..old(self)@
            }),
        no_unwind
    {
        self.adc = Some(i2c);
        self.bound = self.addr;
    }

    /// Takes the bus, under the alternative address.
    pub fn unfree_alt_addr(&mut self, i2c: I2C)
        ensures
            final(self)@ == (OrpSensorView {
                device: Some(i2c),
                bound: AdcAddr::Vdd,
                ..old(self)@
            }),
        no_unwind
    {
        self.adc = Some(i2c);
        self.bound = AdcAddr::Vdd;
    }

    /// The bus, for as long as the channel holds it: nothing can be sampled
    /// without.
    pub fn device(&mut self) -> (r: Result<&mut I2C, Error<E>>)
        ensures
            match r {
                Ok(i2c) => {
                    &&& old(self)@.device == Some(*i2c)
                    &&& final(self)@ == (OrpSensorView { device: Some(*final(i2c)), ..old(self)@ })
                },
                Err(e) => {
                    &&& old(self)@.device is None
                    &&& e == Error::<E>::DeviceNotHeld
                    &&& final(self)@ == old(self)@
                },
            },
        no_unwind
    {
        match &mut self.adc {
            Some(i2c) => Ok(i2c),
            None => Err(Error::DeviceNotHeld),
        }
    }

    /// Reads the potential from a sample of the electrode, remembers it as
    /// the last reading, and says what the estimator is to be given: the
    /// reading, after a reset where it has jumped away from the reading before
    /// it.
    pub fn update(&mut self, sample: i16) -> (r: Result<Observation, Error<E>>)
        ensures
            r == (match old(self)@.read_raw::<E>(sample) {
                Ok(orp) => Ok(old(self)@.observe(orp)),
                Err(e) => Err(e),
            }),
            final(self)@ == old(self)@.after_reading(old(self)@.read_raw::<E>(sample)),
        no_unwind
    {
        let last = self.last_meas;
        match self.read_raw(sample) {
            Ok(orp) => Ok(
                Observation {
                    value: orp,
                    reset: discrete_jump(orp, last, DISCRETE_ORP_JUMP_THRESH),
                },
            ),
            Err(e) => Err(e),
        }
    }

    /// Reads the potential from a sample of the electrode, remembers it as
    /// the last reading, and lays out the steps that the estimator takes to a
    /// filtered reading: prediction, correction with the reading, after a
    /// reset where the reading has jumped, and report.
    pub fn read(&mut self, sample: i16) -> (r: Result<Vec<EstimatorStep>, Error<E>>)
        ensures
            match r {
                Ok(steps) => {
                    &&& old(self)@.read_raw::<E>(sample) matches Ok(orp)
                    &&& steps@ == old(self)@.observe(orp).plan()
                },
                Err(e) => old(self)@.read_raw::<E>(sample) == Err::<i32, Error<E>>(e),
            },
            final(self)@ == old(self)@.after_reading(old(self)@.read_raw::<E>(sample)),
    {
        match self.update(sample) {
            Ok(obs) => Ok(obs.steps()),
            Err(e) => Err(e),
        }
    }

    /// Reads the potential from a sample of the electrode, unfiltered, and
    /// remembers it as the last reading.
    pub fn read_raw(&mut self, sample: i16) -> (r: Result<i32, Error<E>>)
        ensures
            r == old(self)@.read_raw::<E>(sample),
            final(self)@ == old(self)@.after_reading(r),
        no_unwind
    {
        if !self.holds_device() {
            return Err(Error::DeviceNotHeld);
        }
        if self.cal.V == 0 {
            return Err(Error::CalibrationUnset);
        }
        let orp = orp_from_voltage(voltage_from_adc(sample), &self.cal);
        self.last_meas = orp;
        Ok(orp)
    }

    /// The electrode voltage, in microvolts, that a sample stands for.
    pub fn read_voltage(&self, sample: i16) -> (r: Result<i32, Error<E>>)
        ensures
            r == self@.read_voltage::<E>(sample),
        no_unwind
    {
        if !self.holds_device() {
            return Err(Error::DeviceNotHeld);
        }
        Ok(voltage_from_adc(sample))
    }

    /// The temperature, in µ°C, that a sample of the board's temperature tap
    /// stands for.
    pub fn read_temp(&self, sample: i16) -> (r: Result<i32, Error<E>>)
        ensures
            r == self@.read_temp::<E>(sample),
        no_unwind
    {
        if !self.holds_device() {
            return Err(Error::DeviceNotHeld);
        }
        Ok(temp_from_voltage(voltage_from_adc(sample)))
    }

    /// Captures the calibration point: the voltage of `sample`, for a
    /// solution of known potential `ORP`. Returns the voltage.
    pub fn calibrate(&mut self, ORP: i32, sample: i16) -> (r: Result<i32, Error<E>>)
        ensures
            r == old(self)@.capture::<E>(sample),
            final(self)@ == (match r {
                Ok(V) => OrpSensorView { cal: CalPtOrp { V, ORP }, ..old(self)@ },
                Err(_) => old(self)@,
            }),
        no_unwind
    {
        if !self.holds_device() {
            return Err(Error::DeviceNotHeld);
        }
        let V = voltage_from_adc(sample);
        self.cal = CalPtOrp::new(V, ORP);
        Ok(V)
    }

    /// Replaces the calibration point.
    pub fn calibrate_all(&mut self, pt: CalPtOrp)
        ensures
            final(self)@ == (OrpSensorView { cal: pt, ..old(self)@ }),
        no_unwind
    {
        self.cal = pt;
    }

    /// Goes back to the calibration of an ideal electrode.
    pub fn reset_calibration(&mut self)
        ensures
            final(self)@ == (OrpSensorView {
                cal: CalPtOrp { V: 400_000, ORP: 400_000_000 },
                ..old(self)@
            }),
        no_unwind
    {
        self.cal = CalPtOrp::new(400_000, 400_000_000);
    }

    /// The address of the channel's converter.
    pub fn addr(&self) -> (addr: AdcAddr)
        ensures
            addr == self@.addr,
        no_unwind
    {
        self.addr
    }

    /// The address under which the bus was last taken.
    pub fn bound(&self) -> (addr: AdcAddr)
        ensures
            addr == self@.bound,
        no_unwind
    {
        self.bound
    }

    /// Time between two readings, in microseconds.
    pub fn dt(&self) -> (dt: u32)
        ensures
            dt == self@.dt,
        no_unwind
    {
        self.dt
    }

    /// The last unfiltered reading.
    pub fn last_meas(&self) -> (orp: i32)
        ensures
            orp == self@.last_meas,
        no_unwind
    {
        self.last_meas
    }

    /// The calibration point.
    pub fn calibration(&self) -> (pt: CalPtOrp)
        ensures
            pt == self@.cal,
        no_unwind
    {
        self.cal
    }
}

} // verus!
