//! The bitset of options a client connection is opened with.

use vstd::prelude::*;

verus! {

/// No option bits at all.
pub const NULL_OPTIONS: u32 = 0x0;

/// Do not start the server automatically when it is not already running.
pub const NO_START_SERVER: u32 = 0x1;

/// Use the exact client name requested, or fail instead of renaming.
pub const USE_EXACT_NAME: u32 = 0x2;

/// A server name is passed along with the open call.
pub const SERVER_NAME: u32 = 0x4;

/// Every bit that names a known option.
pub const OPTIONS_MASK: u32 = 0x7;

/// A set of open options, as the server's open call takes them.
#[derive(Clone, Copy, Debug, PartialEq, Eq, Structural)]
pub struct Options {
    pub bits: u32,
}

/// True when every bit set in `flag` is also set in `bits`.
pub open spec fn option_has(bits: u32, flag: u32) -> bool {
    bits & flag == flag
}

impl Options {
    /// The set of options whose bits are exactly `bits`, if every bit names a
    /// known option.
    pub fn from_bits(bits: u32) -> (r: Option<Options>)
        ensures
            bits & !OPTIONS_MASK == 0 <==> r is Some,
            r matches Some(o) ==> o.bits == bits,
    {
        if bits & !OPTIONS_MASK == 0 {
            Some(Options { bits })
        } else {
            None
        }
    }

    /// The raw bits of the set, as the server's open call takes them.
    pub fn bits(&self) -> (r: u32)
        ensures
            r == self.bits,
    {
        self.bits
    }

    /// True when every option of `other` is also in `self`.
    pub fn contains(&self, other: Options) -> (r: bool)
        ensures
            r == option_has(self.bits, other.bits),
    {
        self.bits & other.bits == other.bits
    }

    /// The union of the two option sets.
    pub fn union(&self, other: Options) -> (r: Options)
        ensures
            r.bits == (self.bits | other.bits),
    {
        Options { bits: self.bits | other.bits }
    }
}

} // verus!
