//! Measurement core of a multi-sensor water-quality instrument.
//!
//! The instrument measures pH, oxidation-reduction potential, temperature and
//! electrical conductivity. Its pH and ORP electrodes sit on two converters
//! that share one bus; the temperature detector has a bus of its own; the
//! conductivity bridge is excited and ranged before it is read.
//!
//! This crate holds everything that is decided or computed on the way from a
//! raw sample to a reading, and nothing that touches the hardware:
//!
//! - `conversion` turns samples into voltages and voltages into quantities,
//!   by calibration points held in `calibration`;
//! - `ph` and `orp` are the two electrode channels, each with the slot that
//!   holds the bus while the channel may be read;
//! - `estimator` tells a real step of the measured quantity from noise, for
//!   the estimator that smooths the readings;
//! - `rtd` is the temperature detector;
//! - `ec` is the conductivity channel, with its gain ladder and its
//!   auto-ranging cycle;
//! - `monitor` hands the bus from channel to channel and assembles a reading
//!   of all of them;
//! - `fixed` is the integer arithmetic underneath.
//!
//! Whoever drives the hardware takes the samples and hands them in; where a
//! measurement takes several steps on the hardware, the crate says after each
//! step which one is next.
//!
//! # Units
//!
//! There is no floating point here. A physical value is an `i32` that counts
//! millionths of its unit: microvolts, millionths of a pH, of a degree
//! Celsius, or of a millivolt of ORP. Excitation voltages of the conductivity
//! bridge are whole millivolts. Quotients are rounded toward negative
//! infinity, and results that do not fit saturate.

#![allow(non_snake_case)]

pub mod bus;
pub mod calibration;
pub mod conversion;
pub mod ec;
pub mod error;
pub mod estimator;
pub mod fixed;
pub mod monitor;
pub mod orp;
pub mod ph;
pub mod rtd;

pub use crate::bus::{AdcAddr, ChannelId, DeviceOwnership};
pub use crate::calibration::{CalPt, CalPtOrp, CalPtT, CalSlot, TempSource};
pub use crate::conversion::{temp_from_voltage, voltage_from_adc};
pub use crate::ec::{EcGain, EcSensor};
pub use crate::error::Error;
pub use crate::estimator::{EstimatorStep, Observation};
pub use crate::monitor::{Readings, WaterMonitor};
pub use crate::orp::OrpSensor;
pub use crate::ph::PhSensor;
pub use crate::rtd::{Rtd, RtdType, RtdWires};
