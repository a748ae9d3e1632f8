//! The progress aggregator: collects per-job byte-progress events for the
//! caller without ever blocking the transfer that reports them. The buffer
//! is bounded; when it is full an event is dropped, never waited on.

use vstd::prelude::*;

verus! {

/// One byte-progress report: how many bytes have arrived, and the total
/// expected when the transport declared one.
#[derive(Clone, Copy, Debug, PartialEq, Eq, Structural)]
pub struct ProgressEvent {
    /// Bytes transferred so far.
    pub bytes: u64,
    /// Total bytes expected, if the transport declared a length.
    pub total: Option<u64>,
}

/// A bounded sink of progress events for one download.
#[derive(Debug, PartialEq, Eq)]
pub struct Progress {
    /// The recorded events, oldest first.
    pub events: Vec<ProgressEvent>,
    /// The bound: no more than this many events are ever held.
    pub capacity: usize,
}

impl Progress {
    /// The buffer never exceeds its bound.
    pub open spec fn wf(&self) -> bool {
        &&& self.events@.len() <= self.capacity
        &&& self.capacity >= 1
    }

    /// An empty sink holding at most `capacity` events.
    pub fn new(capacity: usize) -> (p: Progress)
        requires
            capacity >= 1,
        ensures
            p.wf(),
            p.capacity == capacity,
            p.events@ == Seq::<ProgressEvent>::empty(),
    {
        Progress { events: Vec::new(), capacity }
    }

    /// Report one progress event. The call never waits: when the buffer is
    /// full the event is dropped and the transfer proceeds; the return value
    /// says whether the event was kept.
    pub fn report(&mut self, bytes: u64, total: Option<u64>) -> (accepted: bool)
        requires
            old(self).wf(),
        ensures
            final(self).wf(),
            final(self).capacity == old(self).capacity,
            accepted == (old(self).events@.len() < old(self).capacity),
            accepted ==> final(self).events@ == old(self).events@.push(
                ProgressEvent { bytes, total },
            ),
            !accepted ==> final(self).events@ == old(self).events@,
    {
        if self.events.len() < self.capacity {
            self.events.push(ProgressEvent { bytes, total });
            true
        } else {
            false
        }
    }
}

} // verus!
