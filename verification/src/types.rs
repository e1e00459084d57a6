//! Plain value types shared by the whole crate.

use vstd::prelude::*;

verus! {

/// Number of sample frames in one callback period, and the unit in which the
/// server reports sample rates.
pub type NumFrames = u32;

/// The server's numeric identifier for a port.
pub type PortId = u32;

/// Whether a port-connect notification reports a connection or a
/// disconnection.
#[derive(Clone, Copy, Debug, PartialEq, Eq, Structural)]
pub enum PortConnectStatus {
    PortsConnected,
    PortsDisconnected,
}

} // verus!
