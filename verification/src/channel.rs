//! A bounded first-in-first-out channel of samples.
//!
//! The channel connects the producing side of a collection loop to the
//! consuming side and bounds the memory one session can use: a full channel
//! refuses further sends until an element is taken out (backpressure). A
//! channel whose consumer was never attached is a configuration defect, and a
//! send on it is reported as an error instead of hanging forever.

use crate::errors::SessionError;
use vstd::prelude::*;

verus! {

/// A bounded FIFO queue of fixed-point samples with an explicit consumer
/// flag.
pub struct SignalChannel {
    queue: Vec<i64>,
    capacity: usize,
    consumer_attached: bool,
}

impl View for SignalChannel {
    type V = Seq<i64>;

    /// The queued samples, oldest first.
    closed spec fn view(&self) -> Seq<i64> {
        self.queue@
    }
}

impl SignalChannel {
    /// The fixed capacity the channel was created with.
    pub closed spec fn cap(&self) -> int {
        self.capacity as int
    }

    /// Whether a consumer has been attached.
    pub closed spec fn has_consumer(&self) -> bool {
        self.consumer_attached
    }

    /// The queue never exceeds the capacity, which is positive.
    pub open spec fn wf(&self) -> bool {
        self@.len() <= self.cap() && self.cap() > 0
    }

    /// Creates an empty channel. No consumer is attached yet: a send before
    /// `attach_consumer` is the defect this type is meant to surface.
    pub fn new(capacity: usize) -> (c: SignalChannel)
        requires
            capacity > 0,
        ensures
            c.wf(),
            c@ =~= Seq::<i64>::empty(),
            c.cap() == capacity,
            !c.has_consumer(),
    {
        SignalChannel { queue: Vec::new(), capacity, consumer_attached: false }
    }

    /// Pairs the channel with its consumer; sends are legal afterwards.
    pub fn attach_consumer(&mut self)
        ensures
            final (self)@ =~= old(self)@,
            final (self).cap() == old(self).cap(),
            final (self).has_consumer(),
    {
        self.consumer_attached = true;
    }

    /// Tries to enqueue one sample. `Ok(true)` means it was queued,
    /// `Ok(false)` means the channel is full and the producer must wait
    /// (backpressure); a channel without a consumer is refused outright.
    pub fn try_send(&mut self, sample: i64) -> (r: Result<bool, SessionError>)
        requires
            old(self).wf(),
        ensures
            final (self).wf(),
            final (self).cap() == old(self).cap(),
            final (self).has_consumer() == old(self).has_consumer(),
            !old(self).has_consumer() ==> r == Err::<bool, SessionError>(
                SessionError::ChannelClosedOrUnconsumed,
            ) && final (self)@ =~= old(self)@,
            old(self).has_consumer() && old(self)@.len() < old(self).cap() ==> r == Ok::<
                bool,
                SessionError,
            >(true) && final (self)@ =~= old(self)@.push(sample),
            old(self).has_consumer() && old(self)@.len() == old(self).cap() ==> r == Ok::<
                bool,
                SessionError,
            >(false) && final (self)@ =~= old(self)@,
    {
        if !self.consumer_attached {
            Err(SessionError::ChannelClosedOrUnconsumed)
        } else if self.queue.len() < self.capacity {
            self.queue.push(sample);
            Ok(true)
        } else {
            Ok(false)
        }
    }

    /// Takes the oldest queued sample out, if any.
    pub fn try_receive(&mut self) -> (r: Option<i64>)
        requires
            old(self).wf(),
        ensures
            final (self).wf(),
            final (self).cap() == old(self).cap(),
            final (self).has_consumer() == old(self).has_consumer(),
            old(self)@.len() == 0 ==> r is None && final (self)@ =~= old(self)@,
            old(self)@.len() > 0 ==> r == Some(old(self)@[0]) && final (self)@ =~= old(
                self,
            )@.subrange(1, old(self)@.len() as int),
    {
        if self.queue.len() == 0 {
            None
        } else {
            Some(self.queue.remove(0))
        }
    }

    /// How many samples are queued right now.
    pub fn len(&self) -> (n: usize)
        ensures
            n == self@.len(),
    {
        self.queue.len()
    }

    /// The fixed capacity.
    pub fn capacity(&self) -> (n: usize)
        ensures
            n == self.cap(),
    {
        self.capacity
    }

    /// Whether a consumer has been attached, executably.
    pub fn is_consumed(&self) -> (b: bool)
        ensures
            b == self.has_consumer(),
    {
        self.consumer_attached
    }
}

} // verus!
