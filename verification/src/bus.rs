//! The bus that the channels share.

use vstd::prelude::*;

verus! {

/// The address pin setting under which a converter answers on the bus.
#[derive(Debug, Clone, Copy, PartialEq, Eq)]
pub enum AdcAddr {
    /// Address pin tied to ground.
    Gnd,
    /// Address pin tied to the supply.
    Vdd,
}

/// The channels that share the bus.
#[derive(Debug, Clone, Copy, PartialEq, Eq)]
pub enum ChannelId {
    /// The pH channel, with the board's temperature tap.
    Ph,
    /// The ORP channel, with the conductivity bridge.
    OrpEc,
}

impl ChannelId {
    /// The channel that is not this one.
    pub open spec fn other(self) -> ChannelId {
        match self {
            ChannelId::Ph => ChannelId::OrpEc,
            ChannelId::OrpEc => ChannelId::Ph,
        }
    }
}

/// Who holds the bus. There is one bus, so at most one channel holds it.
#[derive(Debug, Clone, Copy, PartialEq, Eq)]
pub enum DeviceOwnership {
    /// No channel holds the bus.
    Free,
    /// This channel holds the bus, and only it can be read.
    HeldBy(ChannelId),
}

} // verus!
