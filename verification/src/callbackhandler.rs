//! The handler roles a client can register for the server's callbacks.
//!
//! The server invokes every registered callback on its own real-time thread
//! through a fixed C-style signature. The unverified trampoline glue recovers
//! the typed handler object and calls the typed methods declared here; the
//! client owns each registered handler for its whole active lifetime, so the
//! callbacks are never invoked on a freed object.
//!
//! Each trait pins its executable method to a relation declared alongside it:
//! whatever an implementation promises in that relation is what any caller of
//! the method — in particular the dispatch path of the handler registry —
//! gets to rely on.

use vstd::prelude::*;

use crate::types::NumFrames;
use crate::types::PortConnectStatus;
use crate::types::PortId;

verus! {

/// Evidence that the caller is inside a server callback invocation.
///
/// Buffer access is only meaningful for the duration of one callback; glue
/// code constructs one of these per invocation and hands it to the handler.
pub struct CallbackContext {}

impl CallbackContext {
    pub fn new() -> Self {
        CallbackContext {}
    }
}

/// A handler for the per-period process callback.
pub trait ProcessHandler: Sized {
    /// The states from which the handler may be invoked for a period of
    /// `nframes` frames. The server guarantees the frame count it passes
    /// matches the buffers it provides; this predicate is where an
    /// implementation records that assumption.
    spec fn process_ready(self, nframes: NumFrames) -> bool;

    /// What one invocation with frame count `nframes` does: how the handler's
    /// state may change and which status it returns.
    spec fn process_post(pre: Self, post: Self, nframes: NumFrames, status: i32) -> bool;

    /// One period of work. Returns 0 to keep the callback installed, nonzero
    /// to report an error to the server.
    fn process(&mut self, ctx: &CallbackContext, nframes: NumFrames) -> (status: i32)
        requires
            old(self).process_ready(nframes),
        ensures
            Self::process_post(*old(self), *final(self), nframes, status),
    ;
}

/// The metadata callback categories a client can subscribe to.
#[derive(Clone, Copy, Debug, PartialEq, Eq, Structural)]
pub enum MetadataHandlers {
    SampleRate,
    PortConnect,
    Shutdown,
    Freewheel,
    BufferSize,
    ClientRegistration,
    PortRegistration,
    PortRename,
    GraphOrder,
    Xrun,
}

/// A handler for the metadata callbacks: sample-rate changes and port
/// connection changes.
pub trait MetadataHandler: Sized {
    /// What one sample-rate-change invocation does.
    spec fn srate_post(pre: Self, post: Self, srate: NumFrames, status: i32) -> bool;

    /// What one port-connect invocation does.
    spec fn connect_post(
        pre: Self,
        post: Self,
        a: PortId,
        b: PortId,
        status: PortConnectStatus,
    ) -> bool;

    /// The callback categories this handler wants to receive.
    spec fn interest(self) -> Seq<MetadataHandlers>;

    /// The server's sample rate is now `srate` frames per second. Returns 0
    /// on success.
    fn sample_rate_changed(&mut self, srate: NumFrames) -> (status: i32)
        ensures
            Self::srate_post(*old(self), *final(self), srate, status),
    ;

    /// The ports `a` and `b` were connected or disconnected.
    fn on_port_connect(&mut self, a: PortId, b: PortId, status: PortConnectStatus)
        ensures
            Self::connect_post(*old(self), *final(self), a, b, status),
    ;

    /// The callback categories this handler wants to receive, one slot
    /// installed per entry.
    fn callbacks_of_interest(&self) -> (cbs: Vec<MetadataHandlers>)
        ensures
            cbs@ == self.interest(),
    ;
}

/// True for the metadata categories that can actually be installed with the
/// server; asking for any other category is a caller bug.
pub open spec fn handler_installable(h: MetadataHandlers) -> bool {
    h is SampleRate || h is PortConnect
}

/// Whether this one category can be installed.
pub fn is_installable(h: &MetadataHandlers) -> (r: bool)
    ensures
        r == handler_installable(*h),
{
    match h {
        MetadataHandlers::SampleRate => true,
        MetadataHandlers::PortConnect => true,
        _ => false,
    }
}

/// Whether every category of an interest set can be installed. Glue code
/// checks this before walking the set, and treats a refusal as the caller
/// bug it is.
pub fn all_installable(cbs: &Vec<MetadataHandlers>) -> (r: bool)
    ensures
        r == forall|i: int| 0 <= i < cbs@.len() ==> handler_installable(cbs@[i]),
{
    let n = cbs.len();
    let mut i: usize = 0;
    while i < n
        invariant
            n == cbs@.len(),
            i <= n,
            forall|k: int| 0 <= k < i ==> handler_installable(cbs@[k]),
        decreases n - i,
    {
        if !is_installable(&cbs[i]) {
            return false;
        }
        i = i + 1;
    }
    true
}

} // verus!
