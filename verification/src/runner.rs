//! Running whole cycles, one per session.
//!
//! A cycle is connect → collect → aggregate → evaluate → reset → disconnect.
//! `run_all` executes one cycle per session; sessions never share state, so
//! the relation `cycle_rel` that ties each report to its own session's
//! starting state mentions no other session, and a failing session leaves its
//! siblings untouched. The first error of a batch is surfaced only after
//! every session has run.

use crate::aggregate::Mean;
use crate::aggregate::sum_seq;
use crate::channel::SignalChannel;
use crate::config::CollectionWindow;
use crate::config::ThresholdConfig;
use crate::errors::CollectOutcome;
use crate::errors::SessionError;
use crate::session::DeviceSession;
use crate::source::SampleSource;
use crate::source::scripted_take;
use vstd::prelude::*;

verus! {

/// Everything one session's cycle owns: the session itself, its private
/// sample source, and its private channel. Nothing here is shared.
pub struct SessionRun {
    pub session: DeviceSession,
    pub source: SampleSource,
    pub channel: SignalChannel,
}

impl SessionRun {
    /// All three parts are well formed and the channel starts drained.
    pub open spec fn wf(&self) -> bool {
        self.session.wf() && self.source.wf() && self.channel.wf() && self.channel@.len() == 0
    }
}

/// What one completed cycle reports: the exact aggregate, whether the
/// threshold action fired, and how the collection window ended.
#[derive(Clone, Copy, Debug, PartialEq, Eq, Structural)]
pub struct CycleReport {
    pub aggregate: Mean,
    pub action_fired: bool,
    pub outcome: CollectOutcome,
}

/// The source advanced by `k` samples: a scripted source keeps its script
/// and moves its cursor cyclically; a seeded source keeps its range.
pub open spec fn source_advanced(pre: SampleSource, post: SampleSource, k: int) -> bool {
    &&& pre is Scripted ==> {
        &&& post is Scripted
        &&& post.script() =~= pre.script()
        &&& post.cursor() == (pre.cursor() + k) % (pre.script().len() as int)
    }
    &&& pre is Seeded ==> {
        &&& post is Seeded
        &&& post.lower() == pre.lower()
        &&& post.upper() == pre.upper()
    }
}

/// The buffer a scripted cycle aggregates: what was already there plus the
/// `k` scripted samples.
pub open spec fn scripted_collected(pre: SessionRun, k: int) -> Seq<i64>
    recommends
        pre.source is Scripted,
{
    pre.session.buffer@ + scripted_take(pre.source.script(), pre.source.cursor(), k as nat)
}

/// How one cycle relates its starting state `pre`, its final state `post`,
/// and its result `r`. The relation mentions only this session's own parts:
/// what any other session does cannot influence it.
pub open spec fn cycle_rel(
    pre: SessionRun,
    post: SessionRun,
    window: CollectionWindow,
    config: ThresholdConfig,
    cancel_after: Option<u64>,
    r: Result<CycleReport, SessionError>,
) -> bool {
    let k = window.effective_count(cancel_after);
    let n = pre.session.buffer@.len() + k;
    &&& post.session.id == pre.session.id
    &&& post.session.channel_capacity == pre.session.channel_capacity
    &&& post.channel.cap() == pre.channel.cap()
    &&& post.channel.has_consumer() == pre.channel.has_consumer()
    &&& (pre.session.connection_state is Connected ==> {
        &&& r == Err::<CycleReport, SessionError>(SessionError::AlreadyConnected)
        &&& post.session == pre.session
        &&& post.source == pre.source
        &&& post.channel == pre.channel
    })
    &&& ((pre.session.connection_state is Disconnected && k > 0 && !pre.channel.has_consumer())
        ==> {
        &&& r == Err::<CycleReport, SessionError>(SessionError::ChannelClosedOrUnconsumed)
        &&& post.session.connection_state is Connected
        &&& post.session.buffer == pre.session.buffer
        &&& post.session.factor == pre.session.factor
        &&& post.source == pre.source
        &&& post.channel == pre.channel
    })
    &&& ((pre.session.connection_state is Disconnected && (k == 0 || pre.channel.has_consumer())
        && n == 0) ==> {
        &&& r == Err::<CycleReport, SessionError>(SessionError::EmptyBuffer)
        &&& post.session.connection_state is Connected
        &&& post.session.buffer@.len() == 0
        &&& post.session.factor == pre.session.factor
        &&& post.channel@.len() == 0
        &&& source_advanced(pre.source, post.source, k)
    })
    &&& ((pre.session.connection_state is Disconnected && (k == 0 || pre.channel.has_consumer())
        && n > 0) ==> {
        &&& r matches Ok(rep)
        &&& rep.outcome == (if window.cancelled_by(cancel_after) {
            CollectOutcome::Cancelled
        } else {
            CollectOutcome::Completed
        })
        &&& rep.aggregate.count == n
        &&& pre.source is Scripted ==> rep.aggregate.sum == sum_seq(scripted_collected(pre, k))
        &&& pre.source is Seeded ==> sum_seq(pre.session.buffer@) + k * pre.source.lower()
            <= rep.aggregate.sum <= sum_seq(pre.session.buffer@) + k * pre.source.upper()
        &&& rep.action_fired == (rep.aggregate.sum > config.threshold * n)
        &&& rep.action_fired ==> post.session.factor.num == pre.session.factor.num
            * config.multiplier.num
        &&& rep.action_fired ==> post.session.factor.den == pre.session.factor.den
            * config.multiplier.den
        &&& !rep.action_fired ==> post.session.factor == pre.session.factor
        &&& post.session.buffer@.len() == 0
        &&& post.session.connection_state is Disconnected
        &&& post.channel@.len() == 0
        &&& source_advanced(pre.source, post.source, k)
    })
}

/// Runs one full cycle on one session. An error aborts the cycle where it
/// was raised and is returned; the session keeps the state the aborted cycle
/// left it in. The bounds in the precondition only keep the factor
/// representable if the action fires.
pub fn run_cycle(
    run: &mut SessionRun,
    window: &CollectionWindow,
    config: &ThresholdConfig,
    cancel_after: Option<u64>,
) -> (r: Result<CycleReport, SessionError>)
    requires
        old(run).wf(),
        window.wf(),
        config.wf(),
        i64::MIN <= old(run).session.factor.num * config.multiplier.num <= i64::MAX,
        old(run).session.factor.den * config.multiplier.den <= i64::MAX,
    ensures
        final (run).wf(),
        final (run).session.factor.wf(),
        cycle_rel(*old(run), *final (run), *window, *config, cancel_after, r),
{
    match run.session.connect() {
        Err(e) => {
            return Err(e);
        },
        Ok(()) => {},
    }
    let outcome = match run.session.collect(window, &mut run.source, &mut run.channel, cancel_after) {
        Err(e) => {
            return Err(e);
        },
        Ok(o) => o,
    };
    let ghost collected = run.session.buffer@;
    let m = match run.session.aggregate() {
        Err(e) => {
            return Err(e);
        },
        Ok(m) => m,
    };
    let fired = match run.session.evaluate(config) {
        Err(e) => {
            proof {
                assert(false);
            }
            return Err(e);
        },
        Ok(f) => f,
    };
    proof {
        if old(run).source is Seeded {
            let k = window.effective_count(cancel_after);
            let oldlen = old(run).session.buffer@.len() as int;
            let tail = collected.subrange(oldlen, collected.len() as int);
            assert(collected =~= old(run).session.buffer@ + tail);
            crate::aggregate::lemma_sum_seq_append(old(run).session.buffer@, tail);
            crate::aggregate::lemma_sum_seq_bounds(
                tail,
                old(run).source.lower(),
                old(run).source.upper(),
            );
            assert(tail.len() == k);
        }
    }
    run.session.reset();
    let disc = run.session.disconnect();
    proof {
        assert(disc == Ok::<(), SessionError>(()));
    }
    Ok(CycleReport { aggregate: m, action_fired: fired, outcome })
}

/// Runs one cycle per session, in order, each on its own state. The returned
/// sessions and reports line up with the input by position, and each report
/// stands in `cycle_rel` with its own session's states alone: a failing
/// session aborts nothing but itself.
pub fn run_all(
    runs: Vec<SessionRun>,
    window: &CollectionWindow,
    config: &ThresholdConfig,
    cancel_after: Option<u64>,
) -> (out: (Vec<SessionRun>, Vec<Result<CycleReport, SessionError>>))
    requires
        window.wf(),
        config.wf(),
        forall|i: int|
            0 <= i < runs@.len() ==> {
                &&& (#[trigger] runs@[i]).wf()
                &&& i64::MIN <= runs@[i].session.factor.num * config.multiplier.num <= i64::MAX
                &&& runs@[i].session.factor.den * config.multiplier.den <= i64::MAX
            },
    ensures
        out.0@.len() == runs@.len(),
        out.1@.len() == runs@.len(),
        forall|i: int|
            0 <= i < runs@.len() ==> (#[trigger] out.0@[i]).wf() && cycle_rel(
                runs@[i],
                out.0@[i],
                *window,
                *config,
                cancel_after,
                out.1@[i],
            ),
{
    let mut pending = runs;
    let ghost orig = pending@;
    let mut done: Vec<SessionRun> = Vec::new();
    let mut reports: Vec<Result<CycleReport, SessionError>> = Vec::new();
    while pending.len() > 0
        invariant
            window.wf(),
            config.wf(),
            done@.len() == reports@.len(),
            done@.len() + pending@.len() == orig.len(),
            pending@ =~= orig.subrange(done@.len() as int, orig.len() as int),
            forall|i: int|
                0 <= i < orig.len() ==> {
                    &&& (#[trigger] orig[i]).wf()
                    &&& i64::MIN <= orig[i].session.factor.num * config.multiplier.num <= i64::MAX
                    &&& orig[i].session.factor.den * config.multiplier.den <= i64::MAX
                },
            forall|i: int|
                0 <= i < done@.len() ==> (#[trigger] done@[i]).wf() && cycle_rel(
                    orig[i],
                    done@[i],
                    *window,
                    *config,
                    cancel_after,
                    reports@[i],
                ),
        decreases pending@.len(),
    {
        let mut run = pending.remove(0);
        proof {
            assert(orig.subrange(done@.len() as int, orig.len() as int)[0] == orig[done@.len() as int]);
        }
        let r = run_cycle(&mut run, window, config, cancel_after);
        done.push(run);
        reports.push(r);
        proof {
            assert(pending@ =~= orig.subrange(done@.len() as int, orig.len() as int));
        }
    }
    (done, reports)
}

/// The position and value of the first error of a batch, if any: `None`
/// exactly when every session succeeded.
pub fn first_error(reports: &Vec<Result<CycleReport, SessionError>>) -> (r: Option<
    (usize, SessionError),
>)
    ensures
        r is None ==> forall|i: int| 0 <= i < reports@.len() ==> (#[trigger] reports@[i]) is Ok,
        r matches Some(p) ==> {
            &&& 0 <= p.0 < reports@.len()
            &&& reports@[p.0 as int] == Err::<CycleReport, SessionError>(p.1)
            &&& forall|j: int| 0 <= j < p.0 ==> (#[trigger] reports@[j]) is Ok
        },
{
    let n = reports.len();
    let mut i: usize = 0;
    while i < n
        invariant
            i <= n,
            n == reports@.len(),
            forall|j: int| 0 <= j < i ==> (#[trigger] reports@[j]) is Ok,
        decreases n - i,
    {
        match &reports[i] {
            Err(e) => {
                return Some((i, *e));
            },
            Ok(_) => {},
        }
        i = i + 1;
    }
    None
}

/// Whether every session of a batch succeeded.
pub fn all_succeeded(reports: &Vec<Result<CycleReport, SessionError>>) -> (b: bool)
    ensures
        b <==> forall|i: int| 0 <= i < reports@.len() ==> (#[trigger] reports@[i]) is Ok,
{
    match first_error(reports) {
        Option::None => true,
        Option::Some(_) => false,
    }
}

/// The batch exit code: zero exactly when every session succeeded.
pub fn exit_code(reports: &Vec<Result<CycleReport, SessionError>>) -> (c: i32)
    ensures
        (c == 0) <==> forall|i: int| 0 <= i < reports@.len() ==> (#[trigger] reports@[i]) is Ok,
{
    if all_succeeded(reports) {
        0
    } else {
        1
    }
}

/// Sessions cannot contaminate one another: a cycle on a scripted session is
/// a function of that session's own starting state alone, so two runs from
/// the same starting state — under any interleaving with other sessions, and
/// whether the siblings run before, after, or in between — report the same
/// result and leave the same factor.
pub proof fn lemma_scripted_cycle_deterministic(
    pre: SessionRun,
    post1: SessionRun,
    post2: SessionRun,
    window: CollectionWindow,
    config: ThresholdConfig,
    cancel_after: Option<u64>,
    r1: Result<CycleReport, SessionError>,
    r2: Result<CycleReport, SessionError>,
)
    requires
        window.wf(),
        pre.source is Scripted,
        cycle_rel(pre, post1, window, config, cancel_after, r1),
        cycle_rel(pre, post2, window, config, cancel_after, r2),
    ensures
        r1 == r2,
        post1.session.factor == post2.session.factor,
{
    let k = window.effective_count(cancel_after);
    let n = pre.session.buffer@.len() + k;
    assert(window.sample_count() >= 0) by {
        if window.duration_ms != 0 {
            vstd::arithmetic::div_mod::lemma_div_pos_is_pos(
                window.duration_ms - 1,
                window.poll_interval_ms as int,
            );
        }
    }
    assert(k >= 0);
    if pre.session.connection_state is Connected {
    } else if k > 0 && !pre.channel.has_consumer() {
    } else if n == 0 {
    } else {
        assert(pre.session.connection_state is Disconnected && (k == 0
            || pre.channel.has_consumer()) && n > 0);
        match (r1, r2) {
            (Ok(rep1), Ok(rep2)) => {
                assert(rep1.aggregate.sum == sum_seq(scripted_collected(pre, k)));
                assert(rep2.aggregate.sum == sum_seq(scripted_collected(pre, k)));
                assert(rep1.aggregate.count == n && rep2.aggregate.count == n);
                assert(rep1.action_fired == rep2.action_fired);
                assert(rep1.outcome == rep2.outcome);
                assert(rep1 == rep2);
            },
            _ => {
                assert(false);
            },
        }
    }
}

} // verus!
