//! The bitset of status codes the server reports from fallible operations.

use vstd::prelude::*;

verus! {

/// The overall operation failed.
pub const FAILURE: u32 = 0x1;

/// The operation contained an invalid or unsupported option.
pub const INVALID_OPTION: u32 = 0x2;

/// The desired client name was not unique, and the server assigned another.
pub const NAME_NOT_UNIQUE: u32 = 0x4;

/// The server was started as a result of this operation.
pub const SERVER_STARTED: u32 = 0x8;

/// Unable to connect to the server.
pub const SERVER_FAILED: u32 = 0x10;

/// Communication error with the server.
pub const SERVER_ERROR: u32 = 0x20;

/// The requested client does not exist.
pub const NO_SUCH_CLIENT: u32 = 0x40;

/// Unable to load an internal client.
pub const LOAD_FAILURE: u32 = 0x80;

/// Unable to initialize the client.
pub const INIT_FAILURE: u32 = 0x100;

/// Unable to access shared memory.
pub const SHM_FAILURE: u32 = 0x200;

/// The client's protocol version does not match the server's.
pub const VERSION_ERROR: u32 = 0x400;

/// Backend error.
pub const BACKEND_ERROR: u32 = 0x800;

/// The client was evicted by the server.
pub const CLIENT_ZOMBIE: u32 = 0x1000;

/// Every bit that names a known status code.
pub const STATUS_MASK: u32 = 0x1fff;

/// A set of status codes, as the server reports them.
#[derive(Clone, Copy, Debug, PartialEq, Eq, Structural)]
pub struct Status {
    pub bits: u32,
}

/// True when every bit set in `flag` is also set in `bits`.
pub open spec fn status_has(bits: u32, flag: u32) -> bool {
    bits & flag == flag
}

impl Status {
    /// The empty set of status codes: the server reported nothing.
    pub fn empty() -> (r: Status)
        ensures
            r.bits == 0,
    {
        Status { bits: 0 }
    }

    /// The single code that reports plain failure, for calls on which the
    /// server gives no more detail.
    pub fn failure() -> (r: Status)
        ensures
            r.bits == FAILURE,
    {
        Status { bits: FAILURE }
    }

    /// The set of codes whose bits are exactly `bits`, if every bit names a
    /// known code.
    pub fn from_bits(bits: u32) -> (r: Option<Status>)
        ensures
            bits & !STATUS_MASK == 0 <==> r is Some,
            r matches Some(s) ==> s.bits == bits,
    {
        if bits & !STATUS_MASK == 0 {
            Some(Status { bits })
        } else {
            None
        }
    }

    /// The raw bits of the set.
    pub fn bits(&self) -> (r: u32)
        ensures
            r == self.bits,
    {
        self.bits
    }

    /// True when every code of `other` was also reported in `self`.
    pub fn contains(&self, other: Status) -> (r: bool)
        ensures
            r == status_has(self.bits, other.bits),
    {
        self.bits & other.bits == other.bits
    }
}

} // verus!
