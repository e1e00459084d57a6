//! The data type carried by a port.

use vstd::prelude::*;

verus! {

/// The kind of data a port carries, as named in the server's port type
/// strings.
#[derive(Clone, Copy, Debug, PartialEq, Eq, Structural)]
pub enum PortType {
    DefaultAudioType,
    DefaultMidiType,
}

impl PortType {
    /// The port type string that the server's registration call expects for
    /// this kind of port.
    pub fn as_string(self) -> (r: &'static str)
        ensures
            self is DefaultAudioType ==> r@ == "32 bit float mono audio"@,
            self is DefaultMidiType ==> r@ == "8 bit raw midi"@,
    {
        match self {
            PortType::DefaultAudioType => "32 bit float mono audio",
            PortType::DefaultMidiType => "8 bit raw midi",
        }
    }
}

} // verus!
