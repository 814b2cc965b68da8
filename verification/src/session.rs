//! One simulated device session: connection state, sample buffer, and the
//! persistent factor, with the full
//! connect → collect → aggregate → evaluate → reset → disconnect cycle.
//!
//! The contracts enforce the session invariants: the buffer grows only while
//! the session is connected, it is emptied only by an explicit `reset`, and
//! the factor changes only inside `evaluate`, exactly once per firing
//! decision.

use crate::aggregate;
use crate::aggregate::Mean;
use crate::channel::SignalChannel;
use crate::config::CollectionWindow;
use crate::config::ThresholdConfig;
use crate::errors::CollectOutcome;
use crate::errors::SessionError;
use crate::policy;
use crate::ratio::Ratio;
use crate::source::SampleSource;
use crate::source::scripted_take;
use vstd::prelude::*;

verus! {

/// Whether the simulated device link is up.
#[derive(Clone, Copy, Debug, PartialEq, Eq, Structural)]
pub enum ConnectionState {
    Disconnected,
    Connected,
}

/// One device session. Sessions never share state: each owns its buffer and
/// its factor outright.
pub struct DeviceSession {
    /// The caller-chosen device label; immutable.
    pub id: String,
    /// Up or down; flipped only by `connect` and `disconnect`.
    pub connection_state: ConnectionState,
    /// The collected fixed-point samples, in strict generation order.
    pub buffer: Vec<i64>,
    /// The persistent multiplicative factor; carried across cycles.
    pub factor: Ratio,
    /// The configured bound of the session's signal channel.
    pub channel_capacity: usize,
}

impl DeviceSession {
    /// The factor is a well-formed ratio and the channel bound is positive.
    pub open spec fn wf(&self) -> bool {
        self.factor.wf() && self.channel_capacity > 0
    }

    /// A fresh session: disconnected, empty buffer, factor one.
    pub fn new(id: String, channel_capacity: usize) -> (s: DeviceSession)
        requires
            channel_capacity > 0,
        ensures
            s.wf(),
            s.id == id,
            s.connection_state is Disconnected,
            s.buffer@.len() == 0,
            s.factor.num == 1 && s.factor.den == 1,
            s.channel_capacity == channel_capacity,
    {
        DeviceSession {
            id,
            connection_state: ConnectionState::Disconnected,
            buffer: Vec::new(),
            factor: Ratio::one(),
            channel_capacity,
        }
    }

    /// Whether the session is connected, executably.
    pub fn is_connected(&self) -> (b: bool)
        ensures
            b == (self.connection_state is Connected),
    {
        match self.connection_state {
            ConnectionState::Connected => true,
            ConnectionState::Disconnected => false,
        }
    }

    /// Brings the link up. Fails with `AlreadyConnected`, and changes
    /// nothing, exactly when the session is already connected. The simulated
    /// connection latency is the caller's suspension, not part of the
    /// transition.
    pub fn connect(&mut self) -> (r: Result<(), SessionError>)
        requires
            old(self).wf(),
        ensures
            final (self).wf(),
            old(self).connection_state is Connected ==> r == Err::<(), SessionError>(
                SessionError::AlreadyConnected,
            ) && *final (self) == *old(self),
            old(self).connection_state is Disconnected ==> r == Ok::<(), SessionError>(())
                && final (self).connection_state is Connected,
            final (self).id == old(self).id,
            final (self).buffer == old(self).buffer,
            final (self).factor == old(self).factor,
            final (self).channel_capacity == old(self).channel_capacity,
    {
        if self.is_connected() {
            Err(SessionError::AlreadyConnected)
        } else {
            self.connection_state = ConnectionState::Connected;
            Ok(())
        }
    }

    /// Takes the link down. Fails with `NotConnected`, and changes nothing,
    /// exactly when the session is already disconnected.
    pub fn disconnect(&mut self) -> (r: Result<(), SessionError>)
        requires
            old(self).wf(),
        ensures
            final (self).wf(),
            old(self).connection_state is Disconnected ==> r == Err::<(), SessionError>(
                SessionError::NotConnected,
            ) && *final (self) == *old(self),
            old(self).connection_state is Connected ==> r == Ok::<(), SessionError>(()),
            old(self).connection_state is Connected ==> final (self).connection_state is Disconnected,
            final (self).id == old(self).id,
            final (self).buffer == old(self).buffer,
            final (self).factor == old(self).factor,
            final (self).channel_capacity == old(self).channel_capacity,
    {
        if self.is_connected() {
            self.connection_state = ConnectionState::Disconnected;
            Ok(())
        } else {
            Err(SessionError::NotConnected)
        }
    }

    /// Appends one sample. The buffer grows only while the session is
    /// connected: on a disconnected session this fails with `NotConnected`
    /// and changes nothing.
    pub fn push_sample(&mut self, sample: i64) -> (r: Result<(), SessionError>)
        requires
            old(self).wf(),
        ensures
            final (self).wf(),
            old(self).connection_state is Disconnected ==> r == Err::<(), SessionError>(
                SessionError::NotConnected,
            ) && *final (self) == *old(self),
            old(self).connection_state is Connected ==> r == Ok::<(), SessionError>(()),
            old(self).connection_state is Connected ==> final (self).buffer@ =~= old(
                self,
            ).buffer@.push(sample),
            final (self).id == old(self).id,
            final (self).connection_state == old(self).connection_state,
            final (self).factor == old(self).factor,
            final (self).channel_capacity == old(self).channel_capacity,
    {
        if self.is_connected() {
            self.buffer.push(sample);
            Ok(())
        } else {
            Err(SessionError::NotConnected)
        }
    }

    /// The exact mean of the buffer; `EmptyBuffer` exactly when there are no
    /// samples, so a division by zero can never produce a silent undefined
    /// value.
    pub fn aggregate(&self) -> (r: Result<Mean, SessionError>)
        ensures
            self.buffer@.len() == 0 ==> r == Err::<Mean, SessionError>(SessionError::EmptyBuffer),
            self.buffer@.len() > 0 ==> (r matches Ok(m) && m.is_mean_of(self.buffer@)),
    {
        aggregate::mean_of(&self.buffer)
    }

    /// Computes the aggregate and applies the threshold policy to the
    /// session factor; returns whether the action fired. The factor is
    /// multiplied by the configured multiplier exactly once when the
    /// aggregate exceeds the threshold, and untouched otherwise. The bounds
    /// in the precondition only keep the factor representable.
    pub fn evaluate(&mut self, config: &ThresholdConfig) -> (r: Result<bool, SessionError>)
        requires
            old(self).wf(),
            config.wf(),
            i64::MIN <= old(self).factor.num * config.multiplier.num <= i64::MAX,
            old(self).factor.den * config.multiplier.den <= i64::MAX,
        ensures
            final (self).wf(),
            old(self).buffer@.len() == 0 ==> r == Err::<bool, SessionError>(
                SessionError::EmptyBuffer,
            ) && *final (self) == *old(self),
            old(self).buffer@.len() > 0 ==> {
                let fired = policy::exceeds(
                    Mean { sum: aggregate::sum_seq(old(self).buffer@) as i128, count: old(self).buffer@.len() as usize },
                    config.threshold,
                );
                &&& r == Ok::<bool, SessionError>(fired)
                &&& fired ==> final (self).factor.num == old(self).factor.num
                    * config.multiplier.num
                &&& fired ==> final (self).factor.den == old(self).factor.den
                    * config.multiplier.den
                &&& !fired ==> final (self).factor == old(self).factor
            },
            final (self).id == old(self).id,
            final (self).connection_state == old(self).connection_state,
            final (self).buffer == old(self).buffer,
            final (self).channel_capacity == old(self).channel_capacity,
    {
        let m = match aggregate::mean_of(&self.buffer) {
            Ok(m) => m,
            Err(e) => {
                return Err(e);
            },
        };
        let fired = policy::apply(&m, config, &mut self.factor);
        Ok(fired)
    }

    /// Empties the buffer, and nothing else: the connection state and the
    /// factor are untouched. The buffer is emptied only here, never
    /// implicitly.
    pub fn reset(&mut self)
        requires
            old(self).wf(),
        ensures
            final (self).wf(),
            final (self).buffer@.len() == 0,
            final (self).id == old(self).id,
            final (self).connection_state == old(self).connection_state,
            final (self).factor == old(self).factor,
            final (self).channel_capacity == old(self).channel_capacity,
    {
        self.buffer.clear();
    }

    /// Runs one collection window: one sample per poll interval is produced
    /// by the session's source, pushed through the bounded channel, and
    /// drained into the buffer, in strict generation order. A full channel
    /// throttles the producer: the oldest queued sample is consumed into the
    /// buffer before the next send. The window yields
    /// `window.sample_count()` samples, or fewer when the cancellation
    /// budget `cancel_after` runs out first; a cut-short window returns
    /// `Cancelled` and keeps the partial buffer. A disconnected session is
    /// refused, and a send on a channel with no attached consumer is
    /// reported instead of hanging.
    pub fn collect(
        &mut self,
        window: &CollectionWindow,
        source: &mut SampleSource,
        channel: &mut SignalChannel,
        cancel_after: Option<u64>,
    ) -> (r: Result<CollectOutcome, SessionError>)
        requires
            old(self).wf(),
            old(source).wf(),
            old(channel).wf(),
            window.wf(),
            old(channel)@.len() == 0,
        ensures
            final (self).wf(),
            final (source).wf(),
            final (channel).wf(),
            final (self).id == old(self).id,
            final (self).factor == old(self).factor,
            final (self).connection_state == old(self).connection_state,
            final (self).channel_capacity == old(self).channel_capacity,
            final (channel).cap() == old(channel).cap(),
            final (channel).has_consumer() == old(channel).has_consumer(),
            old(self).connection_state is Disconnected ==> r == Err::<
                CollectOutcome,
                SessionError,
            >(SessionError::NotConnected) && *final (self) == *old(self) && *final (source) == *old(
                source,
            ) && *final (channel) == *old(channel),
            (old(self).connection_state is Connected && window.effective_count(cancel_after) > 0
                && !old(channel).has_consumer()) ==> r == Err::<CollectOutcome, SessionError>(
                SessionError::ChannelClosedOrUnconsumed,
            ) && *final (self) == *old(self) && *final (source) == *old(source) && *final (channel)
                == *old(channel),
            (old(self).connection_state is Connected && (window.effective_count(cancel_after) == 0
                || old(channel).has_consumer())) ==> {
                let k = window.effective_count(cancel_after);
                let oldlen = old(self).buffer@.len() as int;
                &&& r == Ok::<CollectOutcome, SessionError>(
                    if window.cancelled_by(cancel_after) {
                        CollectOutcome::Cancelled
                    } else {
                        CollectOutcome::Completed
                    },
                )
                &&& final (self).buffer@.len() == oldlen + k
                &&& final (self).buffer@.subrange(0, oldlen) =~= old(self).buffer@
                &&& final (channel)@.len() == 0
                &&& *old(source) is Scripted ==> {
                    &&& final (self).buffer@ =~= old(self).buffer@ + scripted_take(
                        old(source).script(),
                        old(source).cursor(),
                        k as nat,
                    )
                    &&& *final (source) is Scripted
                    &&& final (source).script() =~= old(source).script()
                    &&& final (source).cursor() == (old(source).cursor() + k) % (
                    old(source).script().len() as int)
                }
                &&& *old(source) is Seeded ==> {
                    &&& *final (source) is Seeded
                    &&& final (source).lower() == old(source).lower()
                    &&& final (source).upper() == old(source).upper()
                    &&& forall|j: int|
                        oldlen <= j < final (self).buffer@.len() ==> old(source).lower() <= #[trigger] final (self).buffer@[j] <= old(source).upper()
                }
            },
    {
        if !self.is_connected() {
            return Err(SessionError::NotConnected);
        }
        let planned = window.samples_planned();
        let k: u64 = match cancel_after {
            Option::None => planned,
            Option::Some(c) => if c < planned {
                c
            } else {
                planned
            },
        };
        if k > 0 && !channel.is_consumed() {
            return Err(SessionError::ChannelClosedOrUnconsumed);
        }
        proof {
            assert(k as int == window.effective_count(cancel_after));
            if *old(source) is Scripted {
                vstd::arithmetic::div_mod::lemma_small_mod(
                    old(source).cursor() as nat,
                    old(source).script().len() as nat,
                );
                assert(scripted_take(old(source).script(), old(source).cursor(), 0nat)
                    =~= Seq::<i64>::empty());
            }
        }
        let ghost oldbuf = self.buffer@;
        let ghost oldlen = self.buffer@.len() as int;
        let mut i: u64 = 0;
        while i < k
            invariant
                i <= k,
                self.wf(),
                source.wf(),
                channel.wf(),
                self.id == old(self).id,
                self.factor == old(self).factor,
                self.connection_state == old(self).connection_state,
                self.connection_state is Connected,
                self.channel_capacity == old(self).channel_capacity,
                channel.cap() == old(channel).cap(),
                channel.has_consumer() == old(channel).has_consumer(),
                k > 0 ==> channel.has_consumer(),
                oldbuf == old(self).buffer@,
                oldlen == oldbuf.len() as int,
                self.buffer@.len() + channel@.len() == oldlen + i,
                self.buffer@.len() >= oldlen,
                self.buffer@.subrange(0, oldlen) =~= oldbuf,
                *old(source) is Scripted ==> {
                    &&& self.buffer@ + channel@ =~= oldbuf + scripted_take(
                        old(source).script(),
                        old(source).cursor(),
                        i as nat,
                    )
                    &&& *source is Scripted
                    &&& source.script() =~= old(source).script()
                    &&& source.cursor() == (old(source).cursor() + i) % (
                    old(source).script().len() as int)
                },
                *old(source) is Seeded ==> {
                    &&& *source is Seeded
                    &&& source.lower() == old(source).lower()
                    &&& source.upper() == old(source).upper()
                    &&& forall|j: int|
                        oldlen <= j < self.buffer@.len() ==> old(source).lower()
                            <= #[trigger] self.buffer@[j] <= old(source).upper()
                    &&& forall|j: int|
                        0 <= j < channel@.len() ==> old(source).lower() <= #[trigger] channel@[j]
                            <= old(source).upper()
                },
            decreases k - i,
        {
            let ghost pre_buf = self.buffer@;
            let ghost pre_chan = channel@;
            let s = source.next_sample();
            if channel.len() == channel.capacity() {
                let v = channel.try_receive().unwrap();
                self.buffer.push(v);
            }
            let sent = channel.try_send(s);
            proof {
                assert(sent == Ok::<bool, SessionError>(true));
                assert(self.buffer@ + channel@ =~= (pre_buf + pre_chan).push(s));
                assert(self.buffer@.subrange(0, oldlen) =~= oldbuf);
                if *old(source) is Scripted {
                    let v0 = old(source).script();
                    let n0 = old(source).cursor();
                    let len = v0.len() as int;
                    vstd::arithmetic::div_mod::lemma_mod_bound(n0 + i, len);
                    assert(s == v0[(n0 + i) % len]);
                    assert(scripted_take(v0, n0, (i + 1) as nat) =~= scripted_take(
                        v0,
                        n0,
                        i as nat,
                    ).push(s));
                    assert(self.buffer@ + channel@ =~= oldbuf + scripted_take(
                        v0,
                        n0,
                        (i + 1) as nat,
                    ));
                    vstd::arithmetic::div_mod::lemma_add_mod_noop(n0 + i, 1, len);
                    if len > 1 {
                        vstd::arithmetic::div_mod::lemma_small_mod(1nat, len as nat);
                    } else {
                        vstd::arithmetic::div_mod::lemma_mod_self_0(1int);
                    }
                    assert(source.cursor() == (n0 + (i + 1)) % len);
                }
            }
            i = i + 1;
        }
        while channel.len() > 0
            invariant
                self.wf(),
                source.wf(),
                channel.wf(),
                self.id == old(self).id,
                self.factor == old(self).factor,
                self.connection_state == old(self).connection_state,
                self.channel_capacity == old(self).channel_capacity,
                channel.cap() == old(channel).cap(),
                channel.has_consumer() == old(channel).has_consumer(),
                oldbuf == old(self).buffer@,
                oldlen == oldbuf.len() as int,
                self.buffer@.len() + channel@.len() == oldlen + k,
                self.buffer@.len() >= oldlen,
                self.buffer@.subrange(0, oldlen) =~= oldbuf,
                *old(source) is Scripted ==> {
                    &&& self.buffer@ + channel@ =~= oldbuf + scripted_take(
                        old(source).script(),
                        old(source).cursor(),
                        k as nat,
                    )
                    &&& *source is Scripted
                    &&& source.script() =~= old(source).script()
                    &&& source.cursor() == (old(source).cursor() + k) % (
                    old(source).script().len() as int)
                },
                *old(source) is Seeded ==> {
                    &&& *source is Seeded
                    &&& source.lower() == old(source).lower()
                    &&& source.upper() == old(source).upper()
                    &&& forall|j: int|
                        oldlen <= j < self.buffer@.len() ==> old(source).lower()
                            <= #[trigger] self.buffer@[j] <= old(source).upper()
                    &&& forall|j: int|
                        0 <= j < channel@.len() ==> old(source).lower() <= #[trigger] channel@[j]
                            <= old(source).upper()
                },
            decreases channel@.len(),
        {
            let ghost pre_buf = self.buffer@;
            let ghost pre_chan = channel@;
            let v = channel.try_receive().unwrap();
            self.buffer.push(v);
            proof {
                assert(self.buffer@ + channel@ =~= pre_buf + pre_chan);
                assert(self.buffer@.subrange(0, oldlen) =~= oldbuf);
            }
        }
        proof {
            assert(self.buffer@ + channel@ =~= self.buffer@);
        }
        let cancelled = match cancel_after {
            Option::None => false,
            Option::Some(c) => c < planned,
        };
        if cancelled {
            Ok(CollectOutcome::Cancelled)
        } else {
            Ok(CollectOutcome::Completed)
        }
    }

    /// How many samples the buffer holds.
    pub fn buffer_len(&self) -> (n: usize)
        ensures
            n == self.buffer@.len(),
    {
        self.buffer.len()
    }
}

} // verus!
