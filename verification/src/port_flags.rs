//! The bitset of options a port is registered with.

use vstd::prelude::*;

verus! {

/// The port can receive data.
pub const PORT_IS_INPUT: u32 = 0x1;

/// Data can be read from the port.
pub const PORT_IS_OUTPUT: u32 = 0x2;

/// The port corresponds to some kind of physical I/O connector.
pub const PORT_IS_PHYSICAL: u32 = 0x4;

/// Requesting monitoring of the port makes sense.
pub const PORT_CAN_MONITOR: u32 = 0x8;

/// Data received by (or available at) the port is not passed on to (or taken
/// from) any other port.
pub const PORT_IS_TERMINAL: u32 = 0x10;

/// Every bit that names a known port flag.
pub const PORT_FLAGS_MASK: u32 = 0x1f;

/// A set of port flags, as the server reports and accepts them.
#[derive(Clone, Copy, Debug, PartialEq, Eq, Structural)]
pub struct PortFlags {
    pub bits: u32,
}

/// True when every bit set in `flag` is also set in `bits`.
pub open spec fn has_bits(bits: u32, flag: u32) -> bool {
    bits & flag == flag
}

impl PortFlags {
    /// The set of flags whose bits are exactly `bits`, if every bit names a
    /// known flag.
    pub fn from_bits(bits: u32) -> (r: Option<PortFlags>)
        ensures
            bits & !PORT_FLAGS_MASK == 0 <==> r is Some,
            r matches Some(f) ==> f.bits == bits,
    {
        if bits & !PORT_FLAGS_MASK == 0 {
            Some(PortFlags { bits })
        } else {
            None
        }
    }

    /// The raw bits of the set, as the server's interface takes them.
    pub fn bits(&self) -> (r: u32)
        ensures
            r == self.bits,
    {
        self.bits
    }

    /// True when every flag of `other` is also in `self`.
    pub fn contains(&self, other: PortFlags) -> (r: bool)
        ensures
            r == has_bits(self.bits, other.bits),
    {
        self.bits & other.bits == other.bits
    }

    /// The union of the two flag sets.
    pub fn union(&self, other: PortFlags) -> (r: PortFlags)
        ensures
            r.bits == (self.bits | other.bits),
    {
        PortFlags { bits: self.bits | other.bits }
    }
}

} // verus!
