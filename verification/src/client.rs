//! The decision logic of the client's fallible server interactions.
//!
//! Opening a connection, registering and connecting ports, activating and
//! closing are single calls into the server, made by unverified glue. What
//! the glue hands back — a success flag, a return code, a status bitset —
//! is decided on here, so that every outcome the application can observe is
//! pinned down by a contract.

use vstd::prelude::*;

use crate::status;
use crate::status::Status;
use crate::status::status_has;

verus! {

/// The outcome of an open call: the glue reports whether the server
/// returned a connection (`connected`) and which status codes it set.
/// An open without a connection fails with exactly those codes.
pub fn open_outcome(connected: bool, reported: Status) -> (r: Result<(), Status>)
    ensures
        connected <==> r is Ok,
        r matches Err(s) ==> s == reported,
{
    if connected {
        Ok(())
    } else {
        Err(reported)
    }
}

/// The name a freshly opened client actually has. When the server reports
/// that the requested name was not unique it assigned another, and the
/// name it reports is the client's; otherwise the requested name stood.
pub fn resolve_client_name(requested: String, reported: Status, assigned: String) -> (r: String)
    ensures
        status_has(reported.bits, status::NAME_NOT_UNIQUE) ==> r@ == assigned@,
        !status_has(reported.bits, status::NAME_NOT_UNIQUE) ==> r@ == requested@,
{
    if reported.contains(Status { bits: status::NAME_NOT_UNIQUE }) {
        assigned
    } else {
        requested
    }
}

/// The outcome of a server call that reports success as return code zero
/// and gives no detail on failure: zero is success, anything else is plain
/// failure.
pub fn result_from_return_code(code: i32) -> (r: Result<(), Status>)
    ensures
        code == 0 <==> r is Ok,
        code != 0 ==> (r matches Err(s) && s.bits == status::FAILURE),
{
    if code == 0 {
        Ok(())
    } else {
        Err(Status::failure())
    }
}

/// The outcome of a disconnect call, whose nonzero return codes are status
/// bitsets. A nonzero code outside the known status codes would be a
/// protocol violation by the server and is excluded up front.
pub fn disconnect_outcome(code: u32) -> (r: Result<(), Status>)
    requires
        code & !status::STATUS_MASK == 0,
    ensures
        code == 0 <==> r is Ok,
        code != 0 ==> (r matches Err(s) && s.bits == code),
{
    if code == 0 {
        Ok(())
    } else {
        Err(Status { bits: code })
    }
}

} // verus!
