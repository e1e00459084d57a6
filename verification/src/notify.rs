//! The bounded, best-effort notification path from the real-time callbacks
//! to the application's own threads.
//!
//! A handler running inside a server callback must not block, allocate, or
//! fail the callback on account of a full queue. Sending into the queue is
//! therefore total and best-effort: a message is enqueued when there is
//! room, and reported as dropped — never as an error — when there is none.
//! Messages that are delivered arrive in send order and unaltered.

use vstd::prelude::*;

use crate::callbackhandler::MetadataHandler;
use crate::callbackhandler::MetadataHandlers;
use crate::types::NumFrames;
use crate::types::PortConnectStatus;
use crate::types::PortId;
use std::collections::VecDeque;

verus! {

/// What became of one best-effort send.
#[derive(Clone, Copy, Debug, PartialEq, Eq, Structural)]
pub enum SendOutcome {
    /// The message is in the queue and will reach the receiver.
    Delivered,
    /// The queue was full; the message was discarded and the callback goes
    /// on undisturbed.
    Dropped,
}

/// One fixed-size message from the real-time thread to the application:
/// either a new sample rate or a port connection change.
#[derive(Clone, Copy, Debug, PartialEq, Eq, Structural)]
pub enum Notification {
    SampleRate(NumFrames),
    PortConnection(PortId, PortId, PortConnectStatus),
}

/// What one best-effort send does to the queued messages: appends when
/// below capacity, changes nothing when full. The second component tells
/// whether the message was taken.
pub open spec fn spec_send<T>(q: Seq<T>, cap: nat, msg: T) -> (Seq<T>, bool) {
    if q.len() < cap {
        (q.push(msg), true)
    } else {
        (q, false)
    }
}

/// What sending every message of `msgs` in order does, starting from `q`:
/// the queued messages afterwards, and how many of `msgs` were taken.
pub open spec fn spec_send_all<T>(q: Seq<T>, cap: nat, msgs: Seq<T>) -> (Seq<T>, nat)
    decreases msgs.len(),
{
    if msgs.len() == 0 {
        (q, 0)
    } else {
        let (q1, taken) = spec_send(q, cap, msgs[0]);
        let (q2, delivered) = spec_send_all(q1, cap, msgs.drop_first());
        (q2, delivered + if taken {
            1nat
        } else {
            0nat
        })
    }
}

/// A bounded queue of notification messages, pre-sized at setup time.
///
/// The sending side runs on the real-time thread and never blocks; the
/// receiving side polls from ordinary application code.
#[derive(Debug)]
pub struct NotificationQueue<T> {
    items: VecDeque<T>,
    capacity: usize,
}

impl<T> View for NotificationQueue<T> {
    type V = Seq<T>;

    closed spec fn view(&self) -> Seq<T> {
        self.items@
    }
}

impl<T> NotificationQueue<T> {
    /// The number of messages the queue can hold at once, fixed at setup.
    pub closed spec fn spec_capacity(self) -> nat {
        self.capacity as nat
    }

    /// An empty queue that will hold at most `capacity` messages, with its
    /// storage allocated up front.
    pub fn new(capacity: usize) -> (r: Self)
        ensures
            r@ == Seq::<T>::empty(),
            r.spec_capacity() == capacity,
    {
        NotificationQueue { items: VecDeque::with_capacity(capacity), capacity }
    }

    /// The queue's fixed capacity.
    pub fn capacity(&self) -> (n: usize)
        ensures
            n == self.spec_capacity(),
    {
        self.capacity
    }

    /// The number of messages waiting right now.
    pub fn len(&self) -> (n: usize)
        ensures
            n == self@.len(),
    {
        self.items.len()
    }

    /// Best-effort send. Never blocks and never fails the caller: the
    /// message is enqueued when there is room and dropped when there is
    /// none, exactly as `spec_send` says.
    pub fn send(&mut self, msg: T) -> (r: SendOutcome)
        ensures
            ({
                let (q, taken) = spec_send(old(self)@, old(self).spec_capacity(), msg);
                &&& final(self)@ == q
                &&& (r is Delivered <==> taken)
            }),
            final(self).spec_capacity() == old(self).spec_capacity(),
    {
        if self.items.len() < self.capacity {
            self.items.push_back(msg);
            SendOutcome::Delivered
        } else {
            SendOutcome::Dropped
        }
    }

    /// Takes the oldest waiting message, if any.
    pub fn try_recv(&mut self) -> (r: Option<T>)
        ensures
            old(self)@.len() == 0 ==> r is None && final(self)@ == old(self)@,
            old(self)@.len() > 0 ==> ({
                &&& r matches Some(m) && m == old(self)@[0]
                &&& final(self)@ == old(self)@.drop_first()
            }),
            final(self).spec_capacity() == old(self).spec_capacity(),
    {
        let r = self.items.pop_front();
        proof {
            if old(self)@.len() > 0 {
                assert(self@ =~= old(self)@.drop_first());
            }
        }
        r
    }
}

/// Law: from any queue state with room for `room` more messages, sending a
/// batch in order delivers exactly the first `min(batch length, room)` of
/// them, in order, and drops the rest.
pub proof fn lemma_send_all_delivers<T>(q: Seq<T>, cap: nat, msgs: Seq<T>)
    requires
        q.len() <= cap,
    ensures
        ({
            let room = cap - q.len();
            let delivered = if msgs.len() <= room {
                msgs.len()
            } else {
                room as nat
            };
            &&& spec_send_all(q, cap, msgs).1 == delivered
            &&& spec_send_all(q, cap, msgs).0 == q + msgs.take(delivered as int)
        }),
    decreases msgs.len(),
{
    if msgs.len() == 0 {
        assert(spec_send_all(q, cap, msgs).0 =~= q + msgs.take(0));
    } else {
        let (q1, taken) = spec_send(q, cap, msgs[0]);
        lemma_send_all_delivers(q1, cap, msgs.drop_first());
        let room = cap - q.len();
        let delivered = if msgs.len() <= room {
            msgs.len()
        } else {
            room as nat
        };
        if taken {
            assert(q1 + msgs.drop_first().take(delivered as int - 1) =~= q + msgs.take(
                delivered as int,
            ));
        } else {
            assert(q1 + msgs.drop_first().take(0) =~= q + msgs.take(0));
        }
    }
}

/// Law: sending `m` messages into an empty queue of capacity `cap < m`
/// delivers exactly the first `cap` of them, in order, and reports each of
/// the excess sends as dropped rather than as an error.
pub proof fn lemma_bounded_best_effort<T>(cap: nat, msgs: Seq<T>)
    requires
        cap < msgs.len(),
    ensures
        spec_send_all(Seq::<T>::empty(), cap, msgs).1 == cap,
        spec_send_all(Seq::<T>::empty(), cap, msgs).0 == msgs.take(cap as int),
{
    lemma_send_all_delivers(Seq::<T>::empty(), cap, msgs);
    assert(Seq::<T>::empty() + msgs.take(cap as int) =~= msgs.take(cap as int));
}

/// Law: a message sent into a queue with room is received again exactly as
/// it was sent — the first send into an empty queue is the next message
/// received.
pub proof fn lemma_send_preserves_messages<T>(q: Seq<T>, cap: nat, msg: T)
    requires
        q.len() < cap,
    ensures
        spec_send(q, cap, msg).0.last() == msg,
        q.len() == 0 ==> spec_send(q, cap, msg).0[0] == msg,
{
}

/// A metadata handler that forwards every notification it receives into a
/// bounded queue, best-effort, and always lets the callback succeed.
pub struct NotifyingHandler {
    pub queue: NotificationQueue<Notification>,
}

impl NotifyingHandler {
    /// A handler whose queue holds at most `capacity` pending
    /// notifications.
    pub fn new(capacity: usize) -> (r: Self)
        ensures
            r.queue@ == Seq::<Notification>::empty(),
            r.queue.spec_capacity() == capacity,
    {
        NotifyingHandler { queue: NotificationQueue::new(capacity) }
    }

    /// Gives up the handler and hands its queue to the receiving side.
    pub fn into_queue(self) -> (r: NotificationQueue<Notification>)
        ensures
            r == self.queue,
    {
        self.queue
    }
}

impl MetadataHandler for NotifyingHandler {
    /// A sample-rate change enqueues the new rate, best-effort, and returns
    /// success whether or not there was room.
    open spec fn srate_post(pre: Self, post: Self, srate: NumFrames, status: i32) -> bool {
        &&& status == 0
        &&& post.queue@ == spec_send(
            pre.queue@,
            pre.queue.spec_capacity(),
            Notification::SampleRate(srate),
        ).0
        &&& post.queue.spec_capacity() == pre.queue.spec_capacity()
    }

    /// A port connection change enqueues the pair of ports and the tag,
    /// best-effort.
    open spec fn connect_post(
        pre: Self,
        post: Self,
        a: PortId,
        b: PortId,
        status: PortConnectStatus,
    ) -> bool {
        &&& post.queue@ == spec_send(
            pre.queue@,
            pre.queue.spec_capacity(),
            Notification::PortConnection(a, b, status),
        ).0
        &&& post.queue.spec_capacity() == pre.queue.spec_capacity()
    }

    open spec fn interest(self) -> Seq<MetadataHandlers> {
        seq![MetadataHandlers::SampleRate, MetadataHandlers::PortConnect]
    }

    fn sample_rate_changed(&mut self, srate: NumFrames) -> (status: i32) {
        self.queue.send(Notification::SampleRate(srate));
        0
    }

    fn on_port_connect(&mut self, a: PortId, b: PortId, status: PortConnectStatus) {
        self.queue.send(Notification::PortConnection(a, b, status));
    }

    fn callbacks_of_interest(&self) -> (cbs: Vec<MetadataHandlers>) {
        let mut cbs: Vec<MetadataHandlers> = Vec::new();
        cbs.push(MetadataHandlers::SampleRate);
        cbs.push(MetadataHandlers::PortConnect);
        proof {
            assert(cbs@ =~= self.interest());
        }
        cbs
    }
}

} // verus!
