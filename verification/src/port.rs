//! Addressing of three-wire ports on the hardware bus.
use vstd::prelude::*;

verus! {

/// Index at which the bus is addressed for a port that names no expander.
pub const DEFAULT_EXPANDER_INDEX: u32 = 21;

/// The identity of one three-wire port: its number and, where it sits on an
/// expander, the expander's number.
///
/// This is what a generator keeps of a port. It grants no access to the
/// hardware; whoever owns the port performs the reads.
#[derive(Clone, Copy, Debug, PartialEq, Eq)]
pub struct AdiPort {
    /// The number of the port.
    pub number: u8,
    /// The number of the expander the port belongs to, if any.
    pub expander_number: Option<u8>,
}

/// Where on the bus a port's raw value is read.
#[derive(Clone, Copy, Debug, PartialEq, Eq)]
pub struct BusAddress {
    /// Index of the device that carries the port.
    pub expander_index: u32,
    /// Number of the port on that device.
    pub port_number: u32,
}

/// The bus address of a port: its expander number, or the default index
/// where it has none, together with its port number.
pub open spec fn bus_address_of(port: AdiPort) -> BusAddress {
    BusAddress {
        expander_index: match port.expander_number {
            Some(expander) => expander as u32,
            None => DEFAULT_EXPANDER_INDEX,
        },
        port_number: port.number as u32,
    }
}

impl AdiPort {
    /// Describes the port with the given number on the given expander.
    pub fn new(number: u8, expander_number: Option<u8>) -> (port: AdiPort)
        ensures
            port.number == number,
            port.expander_number == expander_number,
    {
        AdiPort { number, expander_number }
    }

    /// The address at which this port's raw value is read.
    pub fn bus_address(&self) -> (address: BusAddress)
        ensures
            address == bus_address_of(*self),
            self.expander_number is None ==> address.expander_index == DEFAULT_EXPANDER_INDEX,
    {
        let expander_index: u32 = match self.expander_number {
            Some(expander) => expander as u32,
            None => DEFAULT_EXPANDER_INDEX,
        };
        BusAddress { expander_index, port_number: self.number as u32 }
    }
}

} // verus!
