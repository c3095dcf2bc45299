//! What can go wrong in a measurement.

use vstd::prelude::*;

verus! {

/// The ways a measurement fails. `E` is the error of the bus that carries the
/// converter.
#[derive(Debug, PartialEq, Eq)]
pub enum Error<E> {
    /// The bus failed; its own error is carried unchanged.
    TransportError(E),
    /// A channel was read, or asked to give up the bus, while it did not hold it.
    DeviceNotHeld,
    /// A channel asked for the bus while the other channel held it.
    OwnershipConflict,
    /// The gain ladder was stepped past its top or bottom rung.
    GainLimitReached,
    /// The calibration points in use do not define a conversion.
    CalibrationUnset,
}

} // verus!
