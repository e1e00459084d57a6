//! The per-client handler registry and the typed side of the callback
//! bridge.
//!
//! A client owns at most one handler per callback category. Installing a
//! handler with the server is a two-step protocol: the unverified glue first
//! asks the server to accept the new callback slot, then commits the outcome
//! here. Only a confirmed registration replaces — and thereby frees — the
//! previously registered handler; a refused one leaves the old registration
//! untouched and drops the new handler, so the server never holds a pointer
//! to freed storage.
//!
//! The dispatch methods are the typed destination of the C-style
//! trampolines: each one invokes the registered handler exactly once with
//! the arguments the server passed, leaves every other category alone, and
//! returns exactly the status the handler returned.

use vstd::prelude::*;

use crate::callbackhandler::MetadataHandler;
use crate::callbackhandler::ProcessHandler;
use crate::callbackhandler::CallbackContext;
use crate::status;
use crate::status::Status;
use crate::types::NumFrames;
use crate::types::PortConnectStatus;
use crate::types::PortId;

verus! {

/// The handlers a client currently owns, one slot per callback category.
pub struct HandlerRegistry<P, M> {
    pub process_handler: Option<P>,
    pub metadata_handler: Option<M>,
}

/// How a commit of a process-handler registration changes the registry:
/// a confirmed registration installs the new handler, a refused one changes
/// nothing.
pub open spec fn process_commit<P, M>(
    pre: HandlerRegistry<P, M>,
    post: HandlerRegistry<P, M>,
    handler: P,
    accepted: bool,
) -> bool {
    if accepted {
        post == (HandlerRegistry { process_handler: Some(handler), ..pre })
    } else {
        post == pre
    }
}

/// How a commit of a metadata-handler registration changes the registry.
pub open spec fn metadata_commit<P, M>(
    pre: HandlerRegistry<P, M>,
    post: HandlerRegistry<P, M>,
    handler: M,
    accepted: bool,
) -> bool {
    if accepted {
        post == (HandlerRegistry { metadata_handler: Some(handler), ..pre })
    } else {
        post == pre
    }
}

impl<P: ProcessHandler, M: MetadataHandler> HandlerRegistry<P, M> {
    /// A registry with no handler registered for any category.
    pub fn new() -> (r: Self)
        ensures
            r.process_handler is None,
            r.metadata_handler is None,
    {
        HandlerRegistry { process_handler: None, metadata_handler: None }
    }

    /// The number of active process handlers: one once a registration has
    /// been confirmed, never more.
    pub open spec fn active_process_handlers(self) -> nat {
        if self.process_handler is Some {
            1
        } else {
            0
        }
    }

    /// The number of active metadata handlers.
    pub open spec fn active_metadata_handlers(self) -> nat {
        if self.metadata_handler is Some {
            1
        } else {
            0
        }
    }

    /// Commits the outcome of registering `handler` for the process
    /// category. `accepted` is the server's verdict on the new callback
    /// slot, obtained before the old handler is released: on acceptance the
    /// registry takes ownership of `handler` and drops the previous one, on
    /// refusal it keeps the previous registration and drops `handler`.
    pub fn set_process_handler(&mut self, handler: P, accepted: bool) -> (r: Result<(), Status>)
        ensures
            process_commit(*old(self), *final(self), handler, accepted),
            accepted <==> r is Ok,
            r matches Err(s) ==> s.bits == status::FAILURE,
    {
        if accepted {
            self.process_handler = Some(handler);
            Ok(())
        } else {
            Err(Status::failure())
        }
    }

    /// Commits the outcome of registering `handler` for the metadata
    /// categories, under the same protocol as the process category.
    pub fn set_metadata_handler(&mut self, handler: M, accepted: bool) -> (r: Result<(), Status>)
        ensures
            metadata_commit(*old(self), *final(self), handler, accepted),
            accepted <==> r is Ok,
            r matches Err(s) ==> s.bits == status::FAILURE,
    {
        if accepted {
            self.metadata_handler = Some(handler);
            Ok(())
        } else {
            Err(Status::failure())
        }
    }

    /// The typed landing point of the process trampoline: invokes the
    /// registered process handler exactly once with the frame count the
    /// server passed, and returns exactly the handler's status.
    pub fn dispatch_process(&mut self, ctx: &CallbackContext, nframes: NumFrames) -> (status: i32)
        requires
            old(self).process_handler is Some,
            old(self).process_handler matches Some(h) ==> h.process_ready(nframes),
        ensures
            ({
                &&& old(self).process_handler matches Some(pre)
                &&& final(self).process_handler matches Some(post)
                &&& P::process_post(pre, post, nframes, status)
            }),
            final(self).metadata_handler == old(self).metadata_handler,
    {
        let mut h = self.process_handler.take().unwrap();
        let status = h.process(ctx, nframes);
        self.process_handler = Some(h);
        status
    }

    /// The typed landing point of the sample-rate trampoline.
    pub fn dispatch_sample_rate(&mut self, srate: NumFrames) -> (status: i32)
        requires
            old(self).metadata_handler is Some,
        ensures
            ({
                &&& old(self).metadata_handler matches Some(pre)
                &&& final(self).metadata_handler matches Some(post)
                &&& M::srate_post(pre, post, srate, status)
            }),
            final(self).process_handler == old(self).process_handler,
    {
        let mut h = self.metadata_handler.take().unwrap();
        let status = h.sample_rate_changed(srate);
        self.metadata_handler = Some(h);
        status
    }

    /// The typed landing point of the port-connect trampoline.
    pub fn dispatch_port_connect(&mut self, a: PortId, b: PortId, status: PortConnectStatus)
        requires
            old(self).metadata_handler is Some,
        ensures
            ({
                &&& old(self).metadata_handler matches Some(pre)
                &&& final(self).metadata_handler matches Some(post)
                &&& M::connect_post(pre, post, a, b, status)
            }),
            final(self).process_handler == old(self).process_handler,
    {
        let mut h = self.metadata_handler.take().unwrap();
        h.on_port_connect(a, b, status);
        self.metadata_handler = Some(h);
    }
}

/// Law: a registry never holds more than one active handler per category.
pub proof fn lemma_at_most_one_per_category<P: ProcessHandler, M: MetadataHandler>(
    r: HandlerRegistry<P, M>,
)
    ensures
        r.active_process_handlers() <= 1,
        r.active_metadata_handlers() <= 1,
{
}

/// Law: once a category has an active handler, committing a replacement
/// leaves it with exactly one active handler, whether or not the server
/// accepted the replacement — the category is never observed empty and never
/// observed doubled.
pub proof fn lemma_replace_keeps_exactly_one<P: ProcessHandler, M: MetadataHandler>(
    pre: HandlerRegistry<P, M>,
    post: HandlerRegistry<P, M>,
    handler: P,
    accepted: bool,
)
    requires
        pre.active_process_handlers() == 1,
        process_commit(pre, post, handler, accepted),
    ensures
        post.active_process_handlers() == 1,
        post.active_metadata_handlers() == pre.active_metadata_handlers(),
{
}

} // verus!
