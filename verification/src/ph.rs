//! The pH channel.

use vstd::prelude::*;
use std::marker::PhantomData;
use crate::bus::AdcAddr;
use crate::calibration::{CalPt, CalSlot, TempSource};
use crate::conversion::{
    ph_calibration_defined, ph_from_voltage, ph_of_voltage, temp_from_voltage, temp_of_voltage,
    temperature, temperature_of, voltage_from_adc, voltage_of_sample,
};
use crate::error::Error;
use crate::estimator::{discrete_jump, is_jump, EstimatorStep, Observation};
use crate::fixed::saturate;

verus! {

/// A pH reading that differs from the one before it by more than this is a
/// step change, not noise: 0.2 pH.
pub const DISCRETE_PH_JUMP_THRESH: i32 = 200_000;

/// Standard deviation of the noise on a pH reading: 0.1 pH.
pub const PH_STD: i32 = 100_000;

/// The state of a pH channel.
pub struct PhSensorView<I2C> {
    /// The bus, while the channel holds it.
    pub device: Option<I2C>,
    /// The address of the channel's converter.
    pub addr: AdcAddr,
    /// Time between two readings, in microseconds.
    pub dt: u32,
    /// The last unfiltered reading.
    pub last_meas: i32,
    pub cal_1: CalPt,
    pub cal_2: CalPt,
    pub cal_3: Option<CalPt>,
}

impl<I2C> PhSensorView<I2C> {
    /// The state of a new channel: calibrated as an ideal electrode at 23 °C,
    /// with a neutral solution as its last reading.
    pub open spec fn fresh(device: Option<I2C>, addr: AdcAddr, dt: u32) -> Self {
        PhSensorView {
            device,
            addr,
            dt,
            last_meas: 7_000_000,
            cal_1: CalPt { V: 0, pH: 7_000_000, T: 23_000_000 },
            cal_2: CalPt { V: 170_000, pH: 4_000_000, T: 23_000_000 },
            cal_3: None,
        }
    }

    /// Whether the calibration points in use define a conversion.
    pub open spec fn calibrated(self) -> bool {
        ph_calibration_defined(self.cal_1, self.cal_2, self.cal_3)
    }

    /// The pH that the channel reads from a sample of its electrode.
    pub open spec fn reading(self, sample: i16, t: TempSource) -> int {
        saturate(
            ph_of_voltage(
                voltage_of_sample(sample as int),
                temperature_of(t),
                self.cal_1,
                self.cal_2,
                self.cal_3,
            ),
        )
    }

    /// What reading the pH from a sample gives: the reading, unless the
    /// channel does not hold the bus or has no calibration to read by.
    pub open spec fn read_raw<E>(self, sample: i16, t: TempSource) -> Result<i32, Error<E>> {
        if self.device is None {
            Err(Error::DeviceNotHeld)
        } else if !self.calibrated() {
            Err(Error::CalibrationUnset)
        } else {
            Ok(self.reading(sample, t) as i32)
        }
    }

    /// What reading the electrode voltage from a sample gives.
    pub open spec fn read_voltage<E>(self, sample: i16) -> Result<i32, Error<E>> {
        if self.device is None {
            Err(Error::DeviceNotHeld)
        } else {
            Ok(voltage_of_sample(sample as int) as i32)
        }
    }

    /// What reading the board temperature from a sample gives.
    pub open spec fn read_temp<E>(self, sample: i16) -> Result<i32, Error<E>> {
        if self.device is None {
            Err(Error::DeviceNotHeld)
        } else {
            Ok(temp_of_voltage(voltage_of_sample(sample as int)) as i32)
        }
    }

    /// What capturing a calibration point from a sample gives: the voltage of
    /// the sample and the temperature, unless the channel does not hold the
    /// bus.
    pub open spec fn capture<E>(self, sample: i16, t: TempSource) -> Result<(i32, i32), Error<E>> {
        if self.device is None {
            Err(Error::DeviceNotHeld)
        } else {
            Ok((voltage_of_sample(sample as int) as i32, temperature_of(t) as i32))
        }
    }

    /// The observation that a reading makes for the estimator: reset where
    /// the reading lies further from the last one than the threshold.
    pub open spec fn observe(self, pH: i32) -> Observation {
        Observation {
            value: pH,
            reset: is_jump(pH as int, self.last_meas as int, DISCRETE_PH_JUMP_THRESH as int),
        }
    }

    /// The state after a reading: a reading that succeeded is remembered.
    pub open spec fn after_reading<E>(self, r: Result<i32, Error<E>>) -> Self {
        match r {
            Ok(pH) => PhSensorView { last_meas: pH, ..self },
            Err(_) => self,
        }
    }

    /// The state with the calibration point of `slot` replaced by `pt`.
    pub open spec fn with_point(self, slot: CalSlot, pt: CalPt) -> Self {
        match slot {
            CalSlot::One => PhSensorView { cal_1: pt, ..self },
            CalSlot::Two => PhSensorView { cal_2: pt, ..self },
            CalSlot::Three => PhSensorView { cal_3: Some(pt), ..self },
        }
    }
}

/// A pH electrode on a converter that shares its bus with other channels.
pub struct PhSensor<I2C, E> {
    adc: Option<I2C>,
    addr: AdcAddr,
    dt: u32,
    last_meas: i32,
    cal_1: CalPt,
    cal_2: CalPt,
    cal_3: Option<CalPt>,
    bus_error: PhantomData<E>,
}

impl<I2C, E> View for PhSensor<I2C, E> {
    type V = PhSensorView<I2C>;

    closed spec fn view(&self) -> PhSensorView<I2C> {
        PhSensorView {
            device: self.adc,
            addr: self.addr,
            dt: self.dt,
            last_meas: self.last_meas,
            cal_1: self.cal_1,
            cal_2: self.cal_2,
            cal_3: self.cal_3,
        }
    }
}

impl<I2C, E> PhSensor<I2C, E> {
    /// A new channel, with or without the bus.
    pub(crate) fn fresh(device: Option<I2C>, addr: AdcAddr, dt: u32) -> (s: Self)
        ensures
            s@ == PhSensorView::fresh(device, addr, dt),
        no_unwind
    {
        Self {
            adc: device,
            addr,
            dt,
            last_meas: 7_000_000,
            cal_1: CalPt::new(0, 7_000_000, 23_000_000),
            cal_2: CalPt::new(170_000, 4_000_000, 23_000_000),
            cal_3: None,
            bus_error: PhantomData,
        }
    }

    /// A channel that holds the bus, on the converter at the default address,
    /// read every `dt` microseconds.
    pub fn new(i2c: I2C, dt: u32) -> (s: Self)
        ensures
            s@ == PhSensorView::fresh(Some(i2c), AdcAddr::Gnd, dt),
        no_unwind
    {
        Self::fresh(Some(i2c), AdcAddr::Gnd, dt)
    }

    /// As `new`, on the converter at the alternative address.
    pub fn new_alt_addr(i2c: I2C, dt: u32) -> (s: Self)
        ensures
            s@ == PhSensorView::fresh(Some(i2c), AdcAddr::Vdd, dt),
        no_unwind
    {
        Self::fresh(Some(i2c), AdcAddr::Vdd, dt)
    }

    /// Whether the channel holds the bus.
    pub fn holds_device(&self) -> (held: bool)
        ensures
            held == self@.device is Some,
        no_unwind
    {
        match &self.adc {
            Some(_) => true,
            None => false,
        }
    }

    /// Gives up the bus. The channel must hold it.
    pub fn free(&mut self) -> (i2c: I2C)
        requires
            old(self)@.device is Some,
        ensures
            old(self)@.device == Some(i2c),
            final(self)@ == (PhSensorView { device: None, ..old(self)@ }),
    {
        self.adc.take().unwrap()
    }

    /// Exchanges what the channel holds with what `slot` holds: the bus
    /// passes between the two without ever being in neither.
    pub(crate) fn swap_device(&mut self, slot: &mut Option<I2C>)
        ensures
            final(self)@ == (PhSensorView { device: *old(slot), ..old(self)@ }),
            *final(slot) == old(self)@.device,
        no_unwind
    {
        core::mem::swap(&mut self.adc, slot);
    }

    /// Takes the bus.
    pub fn unfree(&mut self, i2c: I2C)
        ensures
            final(self)@ == (PhSensorView { device: Some(i2c), ..old(self)@ }),
        no_unwind
    {
        self.adc = Some(i2c);
    }

    /// The bus, for as long as the channel holds it: nothing can be sampled
    /// without.
    pub fn device(&mut self) -> (r: Result<&mut I2C, Error<E>>)
        ensures
            match r {
                Ok(i2c) => {
                    &&& old(self)@.device == Some(*i2c)
                    &&& final(self)@ == (PhSensorView { device: Some(*final(i2c)), ..old(self)@ })
                },
                Err(e) => {
                    &&& old(self)@.device is None
                    &&& e == Error::<E>::DeviceNotHeld
                    &&& final(self)@ == old(self)@
                },
            },
        no_unwind
    {
        match &mut self.adc {
            Some(i2c) => Ok(i2c),
            None => Err(Error::DeviceNotHeld),
        }
    }

    /// Reads the pH from a sample of the electrode, remembers it as the last
    /// reading, and says what the estimator is to be given: the reading, after
    /// a reset where it has jumped away from the reading before it.
    pub fn update(&mut self, sample: i16, t: TempSource) -> (r: Result<Observation, Error<E>>)
        ensures
            r == (match old(self)@.read_raw::<E>(sample, t) {
                Ok(pH) => Ok(old(self)@.observe(pH)),
                Err(e) => Err(e),
            }),
            final(self)@ == old(self)@.after_reading(old(self)@.read_raw::<E>(sample, t)),
        no_unwind
    {
        let last = self.last_meas;
        match self.read_raw(sample, t) {
            Ok(pH) => Ok(
                Observation {
                    value: pH,
                    reset: discrete_jump(pH, last, DISCRETE_PH_JUMP_THRESH),
                },
            ),
            Err(e) => Err(e),
        }
    }

    /// Reads the pH from a sample of the electrode, remembers it as the last
    /// reading, and lays out the steps that the estimator takes to a filtered
    /// reading: prediction, correction with the reading, after a reset where
    /// the reading has jumped, and report.
    pub fn read(&mut self, sample: i16, t: TempSource) -> (r: Result<Vec<EstimatorStep>, Error<E>>)
        ensures
            match r {
                Ok(steps) => {
                    &&& old(self)@.read_raw::<E>(sample, t) matches Ok(pH)
                    &&& steps@ == old(self)@.observe(pH).plan()
                },
                Err(e) => old(self)@.read_raw::<E>(sample, t) == Err::<i32, Error<E>>(e),
            },
            final(self)@ == old(self)@.after_reading(old(self)@.read_raw::<E>(sample, t)),
    {
        match self.update(sample, t) {
            Ok(obs) => Ok(obs.steps()),
            Err(e) => Err(e),
        }
    }

    /// Reads the pH from a sample of the electrode, unfiltered, and remembers
    /// it as the last reading.
    pub fn read_raw(&mut self, sample: i16, t: TempSource) -> (r: Result<i32, Error<E>>)
        ensures
            r == old(self)@.read_raw::<E>(sample, t),
            final(self)@ == old(self)@.after_reading(r),
        no_unwind
    {
        if !self.holds_device() {
            return Err(Error::DeviceNotHeld);
        }
        if !self.calibrated() {
            return Err(Error::CalibrationUnset);
        }
        let T = temperature(t);
        let V = voltage_from_adc(sample);
        let pH = ph_from_voltage(V, T, &self.cal_1, &self.cal_2, &self.cal_3);
        self.last_meas = pH;
        Ok(pH)
    }

    /// The electrode voltage, in microvolts, that a sample stands for.
    pub fn read_voltage(&self, sample: i16) -> (r: Result<i32, Error<E>>)
        ensures
            r == self@.read_voltage::<E>(sample),
        no_unwind
    {
        if !self.holds_device() {
            return Err(Error::DeviceNotHeld);
        }
        Ok(voltage_from_adc(sample))
    }

    /// The temperature, in µ°C, that a sample of the board's temperature tap
    /// stands for.
    pub fn read_temp(&self, sample: i16) -> (r: Result<i32, Error<E>>)
        ensures
            r == self@.read_temp::<E>(sample),
        no_unwind
    {
        if !self.holds_device() {
            return Err(Error::DeviceNotHeld);
        }
        Ok(temp_from_voltage(voltage_from_adc(sample)))
    }

    /// Captures a calibration point: the voltage of `sample` and the
    /// temperature of `t`, for a buffer of known `pH`. Overwrites the point of
    /// `slot` and returns the voltage and the temperature.
    pub fn calibrate(
        &mut self,
        slot: CalSlot,
        pH: i32,
        sample: i16,
        t: TempSource,
    ) -> (r: Result<(i32, i32), Error<E>>)
        ensures
            r == old(self)@.capture::<E>(sample, t),
            final(self)@ == (match r {
                Ok((V, T)) => old(self)@.with_point(slot, CalPt { V, pH, T }),
                Err(_) => old(self)@,
            }),
        no_unwind
    {
        if !self.holds_device() {
            return Err(Error::DeviceNotHeld);
        }
        let T = temperature(t);
        let V = voltage_from_adc(sample);
        let pt = CalPt::new(V, pH, T);
        match slot {
            CalSlot::One => self.cal_1 = pt,
            CalSlot::Two => self.cal_2 = pt,
            CalSlot::Three => self.cal_3 = Some(pt),
        }
        Ok((V, T))
    }

    /// Replaces all calibration points.
    pub fn calibrate_all(&mut self, pt0: CalPt, pt1: CalPt, pt2: Option<CalPt>)
        ensures
            final(self)@ == (PhSensorView { cal_1: pt0, cal_2: pt1, cal_3: pt2, ..old(self)@ }),
        no_unwind
    {
        self.cal_1 = pt0;
        self.cal_2 = pt1;
        self.cal_3 = pt2;
    }

    /// Goes back to the calibration of an ideal electrode at 25 °C.
    pub fn reset_calibration(&mut self)
        ensures
            final(self)@ == (PhSensorView {
                cal_1: CalPt { V: 0, pH: 7_000_000, T: 25_000_000 },
                cal_2: CalPt { V: 170_000, pH: 4_000_000, T: 25_000_000 },
                cal_3: None,
                ..old(self)@
            }),
        no_unwind
    {
        self.cal_1 = CalPt::new(0, 7_000_000, 25_000_000);
        self.cal_2 = CalPt::new(170_000, 4_000_000, 25_000_000);
        self.cal_3 = None;
    }

    /// Whether the calibration points in use define a conversion.
    pub fn calibrated(&self) -> (b: bool)
        ensures
            b == self@.calibrated(),
        no_unwind
    {
        self.cal_1.V != self.cal_2.V && match self.cal_3 {
            Some(c3) => c3.V != self.cal_1.V && c3.V != self.cal_2.V,
            None => true,
        }
    }

    /// The address of the channel's converter.
    pub fn addr(&self) -> (addr: AdcAddr)
        ensures
            addr == self@.addr,
        no_unwind
    {
        self.addr
    }

    /// Time between two readings, in microseconds.
    pub fn dt(&self) -> (dt: u32)
        ensures
            dt == self@.dt,
        no_unwind
    {
        self.dt
    }

    /// The last unfiltered reading.
    pub fn last_meas(&self) -> (pH: i32)
        ensures
            pH == self@.last_meas,
        no_unwind
    {
        self.last_meas
    }

    /// The calibration points.
    pub fn calibration(&self) -> (points: (CalPt, CalPt, Option<CalPt>))
        ensures
            points == (self@.cal_1, self@.cal_2, self@.cal_3),
        no_unwind
    {
        (self.cal_1, self.cal_2, self.cal_3)
    }
}

} // verus!
