//! Lightweight, copyable handles to ports, with the legal operations
//! encoded in the handle's type.
//!
//! The server addresses a port by an opaque identity; a handle carries that
//! identity as a plain integer together with a phantom type naming the
//! sample representation the port is expected to carry. Lookup yields an
//! `UnknownPortHandle`, which must be promoted before buffer access is
//! permitted: the checked promotions take the port's registered flags — as
//! the unverified glue queried them from the server — and succeed exactly
//! when the flags grant the capability; the forced promotions skip the
//! check and leave the responsibility with the caller.
//!
//! A handle stays meaningful only while its owning client is open and the
//! port is registered; using it afterwards is a precondition violation of
//! the glue code, not something a handle can detect.

use vstd::prelude::*;

use core::marker::PhantomData;
use crate::port_flags;
use crate::port_flags::PortFlags;
use crate::port_flags::has_bits;

verus! {

/// The operations every port handle supports: each handle names its port by
/// the server's opaque identity.
pub trait Port: Sized {
    /// The opaque identity of the port this handle refers to. Two handles
    /// refer to the same port exactly when these agree, however the handles
    /// were obtained.
    spec fn port_identity(self) -> u64;

    /// The opaque identity of the port, as the glue code passes it back to
    /// the server.
    fn get_raw(&self) -> (r: u64)
        ensures
            r == self.port_identity(),
    ;
}

/// A handle to a port whose direction capability has not been inspected
/// yet.
#[derive(Debug)]
pub struct UnknownPortHandle {
    ident: u64,
}

impl Port for UnknownPortHandle {
    closed spec fn port_identity(self) -> u64 {
        self.ident
    }

    fn get_raw(&self) -> (r: u64) {
        self.ident
    }
}

impl UnknownPortHandle {
    /// The handle for the port with opaque identity `ident`.
    pub fn new(ident: u64) -> (r: Self)
        ensures
            r.port_identity() == ident,
    {
        UnknownPortHandle { ident }
    }

    /// Checked promotion to an input handle. `flags` are the port's
    /// registered flags as the server reports them now; the promotion
    /// succeeds exactly when they grant the input capability.
    pub fn as_input<SampleType>(self, flags: PortFlags) -> (r: Option<InputPortHandle<SampleType>>)
        ensures
            has_bits(flags.bits, port_flags::PORT_IS_INPUT) <==> r is Some,
            r matches Some(p) ==> p.port_identity() == self.port_identity(),
    {
        if flags.contains(PortFlags { bits: port_flags::PORT_IS_INPUT }) {
            Some(InputPortHandle { ident: self.ident, phantom: PhantomData })
        } else {
            None
        }
    }

    /// Checked promotion to an output handle, under the same contract as
    /// `as_input`.
    pub fn as_output<SampleType>(self, flags: PortFlags) -> (r: Option<
        OutputPortHandle<SampleType>,
    >)
        ensures
            has_bits(flags.bits, port_flags::PORT_IS_OUTPUT) <==> r is Some,
            r matches Some(p) ==> p.port_identity() == self.port_identity(),
    {
        if flags.contains(PortFlags { bits: port_flags::PORT_IS_OUTPUT }) {
            Some(OutputPortHandle { ident: self.ident, phantom: PhantomData })
        } else {
            None
        }
    }

    /// Forced promotion to an input handle. No flags are consulted: if the
    /// port is not in fact input-capable, later buffer access has undefined
    /// meaning, and the caller answers for it.
    pub fn force_as_input<SampleType>(self) -> (r: InputPortHandle<SampleType>)
        ensures
            r.port_identity() == self.port_identity(),
    {
        InputPortHandle { ident: self.ident, phantom: PhantomData }
    }

    /// Forced promotion to an output handle, under the same caveat as
    /// `force_as_input`.
    pub fn force_as_output<SampleType>(self) -> (r: OutputPortHandle<SampleType>)
        ensures
            r.port_identity() == self.port_identity(),
    {
        OutputPortHandle { ident: self.ident, phantom: PhantomData }
    }
}

/// A handle to a port known to be input-capable: its buffer for one period
/// may be read.
#[derive(Debug, Copy)]
pub struct InputPortHandle<SampleType> {
    ident: u64,
    phantom: PhantomData<SampleType>,
}

impl<SampleType> Clone for InputPortHandle<SampleType> {
    fn clone(&self) -> (r: Self)
        ensures
            r == *self,
    {
        InputPortHandle { ident: self.ident, phantom: PhantomData }
    }
}

impl<SampleType> Port for InputPortHandle<SampleType> {
    closed spec fn port_identity(self) -> u64 {
        self.ident
    }

    fn get_raw(&self) -> (r: u64) {
        self.ident
    }
}

impl<SampleType> InputPortHandle<SampleType> {
    /// The input handle for the port with opaque identity `ident`.
    pub fn new(ident: u64) -> (r: Self)
        ensures
            r.port_identity() == ident,
    {
        InputPortHandle { ident, phantom: PhantomData }
    }
}

/// A handle to a port known to be output-capable: its buffer for one period
/// may be written.
#[derive(Debug, Copy)]
pub struct OutputPortHandle<SampleType> {
    ident: u64,
    phantom: PhantomData<SampleType>,
}

impl<SampleType> Clone for OutputPortHandle<SampleType> {
    fn clone(&self) -> (r: Self)
        ensures
            r == *self,
    {
        OutputPortHandle { ident: self.ident, phantom: PhantomData }
    }
}

impl<SampleType> Port for OutputPortHandle<SampleType> {
    closed spec fn port_identity(self) -> u64 {
        self.ident
    }

    fn get_raw(&self) -> (r: u64) {
        self.ident
    }
}

impl<SampleType> OutputPortHandle<SampleType> {
    /// The output handle for the port with opaque identity `ident`.
    pub fn new(ident: u64) -> (r: Self)
        ensures
            r.port_identity() == ident,
    {
        OutputPortHandle { ident, phantom: PhantomData }
    }
}

} // verus!
