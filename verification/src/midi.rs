//! Random access to the timestamped events packed into one port's buffer
//! for one callback period.
//!
//! The server packs each period's events in order of non-decreasing
//! intra-period timestamp; the unverified glue decodes them into plain
//! values once and hands them over whole. Access by index is bounds-checked:
//! an index at or past the event count is a caller bug, not a runtime
//! condition, and is rejected up front.

use vstd::prelude::*;

use crate::types::NumFrames;

verus! {

/// Marker for the sample representation of event ports, used as the sample
/// type parameter of port handles that carry events rather than audio.
pub struct MidiEvent {}

/// One timestamped event of a period: its frame offset within the period
/// and its raw payload bytes.
#[derive(Debug)]
pub struct MidiEventRef {
    time: NumFrames,
    bytes: Vec<u8>,
}

impl MidiEventRef {
    /// The event with frame offset `time` and payload `bytes`.
    pub fn new(time: NumFrames, bytes: Vec<u8>) -> (r: Self)
        ensures
            r.spec_time() == time,
            r.spec_bytes() == bytes@,
    {
        MidiEventRef { time, bytes }
    }

    /// The event's frame offset within the period.
    pub closed spec fn spec_time(self) -> NumFrames {
        self.time
    }

    /// The event's raw payload bytes.
    pub closed spec fn spec_bytes(self) -> Seq<u8> {
        self.bytes@
    }

    /// The raw payload bytes of this event.
    pub fn raw_midi_bytes(&self) -> (r: &[u8])
        ensures
            r@ == self.spec_bytes(),
    {
        self.bytes.as_slice()
    }

    /// The event's frame offset within the current period.
    pub fn get_jack_time(&self) -> (t: NumFrames)
        ensures
            t == self.spec_time(),
    {
        self.time
    }
}

/// True when the events stand in order of non-decreasing timestamp.
pub open spec fn times_sorted(events: Seq<MidiEventRef>) -> bool {
    forall|i: int, j: int|
        0 <= i <= j < events.len() ==> events[i].spec_time() <= events[j].spec_time()
}

/// The events of one period, in order of non-decreasing timestamp.
#[derive(Debug)]
pub struct MidiEventBuf {
    events: Vec<MidiEventRef>,
}

impl View for MidiEventBuf {
    type V = Seq<MidiEventRef>;

    closed spec fn view(&self) -> Seq<MidiEventRef> {
        self.events@
    }
}

impl MidiEventBuf {
    /// The event stream of one period. The server delivers events in
    /// timestamp order; that order is this constructor's precondition.
    pub fn new(events: Vec<MidiEventRef>) -> (r: Self)
        requires
            times_sorted(events@),
        ensures
            r@ == events@,
    {
        MidiEventBuf { events }
    }

    /// The event stream of one period, checked: accepts the events exactly
    /// when they stand in timestamp order.
    pub fn from_events(events: Vec<MidiEventRef>) -> (r: Option<Self>)
        ensures
            times_sorted(events@) <==> r is Some,
            r matches Some(buf) ==> buf@ == events@,
    {
        let n = events.len();
        if n <= 1 {
            return Some(MidiEventBuf { events });
        }
        let mut i: usize = 1;
        while i < n
            invariant
                n == events@.len(),
                1 <= i <= n,
                times_sorted(events@.take(i as int)),
            decreases n - i,
        {
            if events[i - 1].get_jack_time() > events[i].get_jack_time() {
                assert(!times_sorted(events@)) by {
                    let bad_i = i - 1;
                    let bad_j = i as int;
                    assert(events@[bad_i].spec_time() > events@[bad_j].spec_time());
                }
                return None;
            }
            assert(times_sorted(events@.take(i + 1))) by {
                let prefix = events@.take(i + 1);
                assert forall|a: int, b: int|
                    0 <= a <= b < prefix.len() implies prefix[a].spec_time()
                    <= prefix[b].spec_time() by {
                    if b < i {
                        assert(events@.take(i as int)[a] == prefix[a]);
                        assert(events@.take(i as int)[b] == prefix[b]);
                    } else if a < i {
                        assert(events@.take(i as int)[a] == prefix[a]);
                        assert(events@.take(i as int)[i - 1] == events@[i - 1]);
                    }
                }
            }
            i = i + 1;
        }
        assert(times_sorted(events@)) by {
            assert(events@.take(n as int) =~= events@);
        }
        Some(MidiEventBuf { events })
    }

    /// The number of events packed into this period's buffer.
    pub fn len(&self) -> (n: usize)
        ensures
            n == self@.len(),
    {
        self.events.len()
    }

    /// The event at `index`. An index at or past the event count is a
    /// caller bug and is excluded up front.
    pub fn get(&self, index: usize) -> (r: &MidiEventRef)
        requires
            index < self@.len(),
        ensures
            *r == self@[index as int],
    {
        &self.events[index]
    }

    /// The event at `index`, checked: an event exactly when `index` is
    /// below the event count.
    pub fn try_get(&self, index: usize) -> (r: Option<&MidiEventRef>)
        ensures
            index < self@.len() <==> r is Some,
            r matches Some(e) ==> *e == self@[index as int],
    {
        if index < self.events.len() {
            Some(&self.events[index])
        } else {
            None
        }
    }
}

} // verus!
