//! The event loop's state machine and the two roles that drive it.
//!
//! The loop itself blocks on an operating-system readiness poll; that wait,
//! and every call into the middleware, happen outside this crate. What is
//! decided here, on plain values, is everything else: which readiness
//! sources mean what, in what order the resulting actions run, when the loop
//! stops, and how the publisher's sample advances each tick.

use vstd::prelude::*;
use crate::channel::ShutdownChannel;
use crate::motion::DA_HEIGHT;
use crate::motion::DA_WIDTH;
use crate::motion::Shape;
use crate::motion::half_size;
use crate::motion::move_shape;
use crate::motion::pick_velocity_component;
use crate::motion::reflect_axis;

verus! {

/// The identity of a readiness source, as the poll reports it. `Other`
/// carries the raw token number of a source the loop never registered.
#[derive(Clone, Copy, PartialEq, Eq, Structural, Debug)]
pub enum Source {
    Shutdown,
    DataReady,
    Other(usize),
}

/// The loop's two states. `Stopped` is terminal: the process exits, there is
/// no restart path.
#[derive(Clone, Copy, PartialEq, Eq, Structural, Debug)]
pub enum LoopState {
    Running,
    Stopped,
}

/// What one publisher iteration tells its caller to do, in order.
#[derive(Clone, Copy, PartialEq, Eq, Structural, Debug)]
pub enum PublisherAction {
    /// Report an unexpected readiness source and go on: an anomaly, not a
    /// crash.
    ReportAnomaly(Source),
    /// Print the final status and leave the loop.
    Quit,
    /// Advance the shape one motion step and publish the new sample.
    PublishTick,
}

/// What one subscriber iteration tells its caller to do, in order.
#[derive(Clone, Copy, PartialEq, Eq, Structural, Debug)]
pub enum SubscriberAction {
    /// Report an unexpected readiness source and go on.
    ReportAnomaly(Source),
    /// Print the final status and leave the loop.
    Quit,
    /// Pull samples from the reader until none remains, reporting each.
    DrainReader,
}

/// The publisher's dispatch over the ready sources, in order: a drained
/// shutdown source ends the iteration at once; a shutdown source with
/// nothing pending is ordinary control flow; any other source is reported
/// as an anomaly and survived. Returns the actions in order, the state the
/// loop is left in, and whether the notification is still pending.
pub open spec fn publisher_dispatch_spec(pending: bool, sources: Seq<Source>) -> (
    Seq<PublisherAction>,
    LoopState,
    bool,
)
    decreases sources.len(),
{
    if sources.len() == 0 {
        (Seq::<PublisherAction>::empty(), LoopState::Running, pending)
    } else {
        match sources[0] {
            Source::Shutdown => {
                if pending {
                    (seq![PublisherAction::Quit], LoopState::Stopped, false)
                } else {
                    publisher_dispatch_spec(false, sources.drop_first())
                }
            },
            src => {
                let (rest, st, p) = publisher_dispatch_spec(pending, sources.drop_first());
                (seq![PublisherAction::ReportAnomaly(src)] + rest, st, p)
            },
        }
    }
}

/// One publisher iteration: a wait that timed out with no ready source is
/// what drives the periodic publish — one animation tick — while a wait
/// that returned sources only dispatches them.
pub open spec fn publisher_iteration_spec(pending: bool, sources: Seq<Source>) -> (
    Seq<PublisherAction>,
    LoopState,
    bool,
) {
    if sources.len() == 0 {
        (seq![PublisherAction::PublishTick], LoopState::Running, pending)
    } else {
        publisher_dispatch_spec(pending, sources)
    }
}

/// One subscriber iteration: as the publisher's, except that the data-ready
/// source asks for a drain of the reader, and a full pass ends with no
/// action — all subscriber progress is event-driven.
pub open spec fn subscriber_iteration_spec(pending: bool, sources: Seq<Source>) -> (
    Seq<SubscriberAction>,
    LoopState,
    bool,
)
    decreases sources.len(),
{
    if sources.len() == 0 {
        (Seq::<SubscriberAction>::empty(), LoopState::Running, pending)
    } else {
        match sources[0] {
            Source::Shutdown => {
                if pending {
                    (seq![SubscriberAction::Quit], LoopState::Stopped, false)
                } else {
                    subscriber_iteration_spec(false, sources.drop_first())
                }
            },
            Source::DataReady => {
                let (rest, st, p) = subscriber_iteration_spec(pending, sources.drop_first());
                (seq![SubscriberAction::DrainReader] + rest, st, p)
            },
            src => {
                let (rest, st, p) = subscriber_iteration_spec(pending, sources.drop_first());
                (seq![SubscriberAction::ReportAnomaly(src)] + rest, st, p)
            },
        }
    }
}

/// Run one publisher iteration: dispatch each ready source in order against
/// the shutdown channel and decide the actions the caller performs.
#[verifier::loop_isolation(false)]
pub fn publisher_iteration(chan: &mut ShutdownChannel, sources: &Vec<Source>) -> (r: (
    Vec<PublisherAction>,
    LoopState,
))
    ensures
        ({
            let (acts, st, p) = publisher_iteration_spec(old(chan).pending(), sources@);
            r.0@ == acts && r.1 == st && final(chan).pending() == p
        }),
{
    let ghost pending0 = chan.pending();
    let mut acts: Vec<PublisherAction> = Vec::new();
    if sources.len() == 0 {
        acts.push(PublisherAction::PublishTick);
        return (acts, LoopState::Running);
    }
    let mut i: usize = 0;
    proof {
        assert(sources@.skip(0) =~= sources@);
    }
    while i < sources.len()
        invariant
            i <= sources@.len(),
            ({
                let (a, st, p) = publisher_dispatch_spec(pending0, sources@);
                let (a2, st2, p2) = publisher_dispatch_spec(
                    chan.pending(),
                    sources@.skip(i as int),
                );
                a == acts@ + a2 && st == st2 && p == p2
            }),
        decreases sources@.len() - i,
    {
        proof {
            assert(sources@.skip(i as int)[0] == sources@[i as int]);
            assert(sources@.skip(i as int).drop_first() =~= sources@.skip(i as int + 1));
        }
        let src = sources[i];
        match src {
            Source::Shutdown => {
                if chan.try_drain() {
                    proof {
                        let (a2, st2, p2) = publisher_dispatch_spec(
                            true,
                            sources@.skip(i as int),
                        );
                        assert(acts@ + a2 =~= acts@.push(PublisherAction::Quit));
                    }
                    acts.push(PublisherAction::Quit);
                    return (acts, LoopState::Stopped);
                }
            },
            other => {
                proof {
                    let (a2, st2, p2) = publisher_dispatch_spec(
                        chan.pending(),
                        sources@.skip(i as int),
                    );
                    let (a3, st3, p3) = publisher_dispatch_spec(
                        chan.pending(),
                        sources@.skip(i as int + 1),
                    );
                    assert(acts@ + a2 =~= acts@.push(PublisherAction::ReportAnomaly(other)) + a3);
                }
                acts.push(PublisherAction::ReportAnomaly(other));
            },
        }
        i += 1;
    }
    proof {
        assert(sources@.skip(i as int) =~= Seq::<Source>::empty());
        let (a2, st2, p2) = publisher_dispatch_spec(chan.pending(), sources@.skip(i as int));
        assert(acts@ + a2 =~= acts@);
    }
    (acts, LoopState::Running)
}

/// Run one subscriber iteration: dispatch each ready source in order against
/// the shutdown channel and decide the actions the caller performs.
#[verifier::loop_isolation(false)]
pub fn subscriber_iteration(chan: &mut ShutdownChannel, sources: &Vec<Source>) -> (r: (
    Vec<SubscriberAction>,
    LoopState,
))
    ensures
        ({
            let (acts, st, p) = subscriber_iteration_spec(old(chan).pending(), sources@);
            r.0@ == acts && r.1 == st && final(chan).pending() == p
        }),
{
    let ghost pending0 = chan.pending();
    let mut acts: Vec<SubscriberAction> = Vec::new();
    let mut i: usize = 0;
    proof {
        assert(sources@.skip(0) =~= sources@);
    }
    while i < sources.len()
        invariant
            i <= sources@.len(),
            ({
                let (a, st, p) = subscriber_iteration_spec(pending0, sources@);
                let (a2, st2, p2) = subscriber_iteration_spec(
                    chan.pending(),
                    sources@.skip(i as int),
                );
                a == acts@ + a2 && st == st2 && p == p2
            }),
        decreases sources@.len() - i,
    {
        proof {
            assert(sources@.skip(i as int)[0] == sources@[i as int]);
            assert(sources@.skip(i as int).drop_first() =~= sources@.skip(i as int + 1));
        }
        let src = sources[i];
        match src {
            Source::Shutdown => {
                if chan.try_drain() {
                    proof {
                        let (a2, st2, p2) = subscriber_iteration_spec(
                            true,
                            sources@.skip(i as int),
                        );
                        assert(acts@ + a2 =~= acts@.push(SubscriberAction::Quit));
                    }
                    acts.push(SubscriberAction::Quit);
                    return (acts, LoopState::Stopped);
                }
            },
            Source::DataReady => {
                proof {
                    let (a2, st2, p2) = subscriber_iteration_spec(
                        chan.pending(),
                        sources@.skip(i as int),
                    );
                    let (a3, st3, p3) = subscriber_iteration_spec(
                        chan.pending(),
                        sources@.skip(i as int + 1),
                    );
                    assert(acts@ + a2 =~= acts@.push(SubscriberAction::DrainReader) + a3);
                }
                acts.push(SubscriberAction::DrainReader);
            },
            other => {
                proof {
                    let (a2, st2, p2) = subscriber_iteration_spec(
                        chan.pending(),
                        sources@.skip(i as int),
                    );
                    let (a3, st3, p3) = subscriber_iteration_spec(
                        chan.pending(),
                        sources@.skip(i as int + 1),
                    );
                    assert(acts@ + a2 =~= acts@.push(SubscriberAction::ReportAnomaly(other)) + a3);
                }
                acts.push(SubscriberAction::ReportAnomaly(other));
            },
        }
        i += 1;
    }
    proof {
        assert(sources@.skip(i as int) =~= Seq::<Source>::empty());
        let (a2, st2, p2) = subscriber_iteration_spec(chan.pending(), sources@.skip(i as int));
        assert(acts@ + a2 =~= acts@);
    }
    (acts, LoopState::Running)
}

/// Shutdown property, publisher side: once the notification is pending, an
/// iteration whose readiness set contains the shutdown source stops the
/// loop, the quit is the last action, and no publish happens in that
/// iteration or after it.
pub proof fn lemma_shutdown_stops_publisher(pending: bool, sources: Seq<Source>)
    requires
        pending,
        sources.contains(Source::Shutdown),
    ensures
        ({
            let (acts, st, p) = publisher_iteration_spec(pending, sources);
            &&& st == LoopState::Stopped
            &&& !p
            &&& acts.len() > 0
            &&& acts.last() == PublisherAction::Quit
            &&& forall|k: int| 0 <= k < acts.len() ==> acts[k] != PublisherAction::PublishTick
        }),
{
    lemma_shutdown_stops_publisher_dispatch(pending, sources);
}

/// The induction behind the publisher's shutdown property, over the
/// dispatch of the ready sources.
proof fn lemma_shutdown_stops_publisher_dispatch(pending: bool, sources: Seq<Source>)
    requires
        pending,
        sources.contains(Source::Shutdown),
    ensures
        ({
            let (acts, st, p) = publisher_dispatch_spec(pending, sources);
            &&& st == LoopState::Stopped
            &&& !p
            &&& acts.len() > 0
            &&& acts.last() == PublisherAction::Quit
            &&& forall|k: int| 0 <= k < acts.len() ==> acts[k] != PublisherAction::PublishTick
        }),
    decreases sources.len(),
{
    let w = choose|w: int| 0 <= w < sources.len() && sources[w] == Source::Shutdown;
    if sources[0] != Source::Shutdown {
        assert(sources.drop_first()[w - 1] == Source::Shutdown);
        assert(sources.drop_first().contains(Source::Shutdown));
        lemma_shutdown_stops_publisher_dispatch(pending, sources.drop_first());
        let (rest, st, p) = publisher_dispatch_spec(pending, sources.drop_first());
        let (acts, st2, p2) = publisher_dispatch_spec(pending, sources);
        assert(acts == seq![PublisherAction::ReportAnomaly(sources[0])] + rest);
        assert(acts.last() == rest.last());
        assert forall|k: int| 0 <= k < acts.len() implies acts[k] != PublisherAction::PublishTick by {
            if k >= 1 {
                assert(acts[k] == rest[k - 1]);
            }
        }
    }
}

/// Shutdown property, subscriber side: once the notification is pending, an
/// iteration whose readiness set contains the shutdown source stops the
/// loop, and the quit is the last action — nothing, a drain included,
/// follows the observed termination.
pub proof fn lemma_shutdown_stops_subscriber(pending: bool, sources: Seq<Source>)
    requires
        pending,
        sources.contains(Source::Shutdown),
    ensures
        ({
            let (acts, st, p) = subscriber_iteration_spec(pending, sources);
            &&& st == LoopState::Stopped
            &&& !p
            &&& acts.len() > 0
            &&& acts.last() == SubscriberAction::Quit
            &&& forall|k: int|
                0 <= k < acts.len() && acts[k] == SubscriberAction::Quit ==> k == acts.len() - 1
        }),
    decreases sources.len(),
{
    let w = choose|w: int| 0 <= w < sources.len() && sources[w] == Source::Shutdown;
    if sources[0] != Source::Shutdown {
        assert(sources.drop_first()[w - 1] == Source::Shutdown);
        assert(sources.drop_first().contains(Source::Shutdown));
        lemma_shutdown_stops_subscriber(pending, sources.drop_first());
        let (rest, st, p) = subscriber_iteration_spec(pending, sources.drop_first());
        let (acts, st2, p2) = subscriber_iteration_spec(pending, sources);
        let head = if sources[0] == Source::DataReady {
            SubscriberAction::DrainReader
        } else {
            SubscriberAction::ReportAnomaly(sources[0])
        };
        assert(acts == seq![head] + rest);
        assert(acts.last() == rest.last());
        assert forall|k: int|
            0 <= k < acts.len() && acts[k] == SubscriberAction::Quit implies k == acts.len()
            - 1 by {
            if k >= 1 {
                assert(acts[k] == rest[k - 1]);
            }
        }
    }
}

/// One outcome of asking the reader for its next available sample, as plain
/// data: a decoded value, a disposed-key notification for a withdrawn
/// instance (reported distinctly, not an error), or a read failure with its
/// description (reported and survived).
#[derive(Clone, Debug)]
pub enum ReadOutcome {
    Decoded(Shape),
    Disposed(String),
    ReadError(String),
}

/// The subscriber-side buffer of outcomes, in arrival order: the model of
/// what the reader holds when the data-ready source fires.
pub struct SampleQueue {
    items: Vec<ReadOutcome>,
}

impl View for SampleQueue {
    type V = Seq<ReadOutcome>;

    closed spec fn view(&self) -> Seq<ReadOutcome> {
        self.items@
    }
}

impl SampleQueue {
    /// An empty buffer.
    pub fn new() -> (q: SampleQueue)
        ensures
            q@ == Seq::<ReadOutcome>::empty(),
    {
        SampleQueue { items: Vec::new() }
    }

    /// An outcome arrives at the back of the buffer.
    pub fn arrive(&mut self, o: ReadOutcome)
        ensures
            final(self)@ == old(self)@.push(o),
    {
        self.items.push(o);
    }

    /// How many outcomes are waiting.
    pub fn len(&self) -> (n: usize)
        ensures
            n == self@.len(),
    {
        self.items.len()
    }

    /// Pull the next available outcome, oldest first; `None` when nothing
    /// remains, which is ordinary control flow, not an error.
    pub fn take_next(&mut self) -> (r: Option<ReadOutcome>)
        ensures
            old(self)@.len() == 0 ==> r is None && final(self)@ == old(self)@,
            old(self)@.len() > 0 ==> r == Option::Some(old(self)@[0]) && final(self)@ == old(
                self,
            )@.drop_first(),
    {
        if self.items.len() == 0 {
            None
        } else {
            let o = self.items.remove(0);
            proof {
                assert(old(self)@.subrange(1, old(self)@.len() as int) =~= old(
                    self,
                )@.drop_first());
            }
            Some(o)
        }
    }
}

/// Subscriber drain: when the data-ready source fires, every outcome that is
/// waiting is handed back for reporting, in arrival order, and the buffer is
/// left empty before the loop returns to waiting.
#[verifier::loop_isolation(false)]
pub fn drain(q: &mut SampleQueue) -> (reports: Vec<ReadOutcome>)
    ensures
        reports@ == old(q)@,
        final(q)@.len() == 0,
{
    let mut reports: Vec<ReadOutcome> = Vec::new();
    while q.len() != 0
        invariant
            old(q)@ == reports@ + q@,
        decreases q@.len(),
    {
        let ghost q_pre = q@;
        let ghost reports_pre = reports@;
        match q.take_next() {
            Option::Some(o) => {
                reports.push(o);
                proof {
                    assert(reports_pre + q_pre =~= reports_pre.push(q_pre[0]) + q_pre.drop_first());
                }
            },
            Option::None => {},
        }
    }
    proof {
        assert(reports@ + q@ =~= reports@);
    }
    reports
}

/// The publisher's long-lived state: the one sample it animates, keyed by
/// the configured color, and the current velocity.
pub struct PublisherRole {
    pub sample: Shape,
    pub xv: i32,
    pub yv: i32,
}

impl PublisherRole {
    /// Well-formed: the sample is the fixed-size shape, standing at its
    /// start position or inside the field, and each velocity component is
    /// one the start-up lottery can produce, possibly negated by
    /// reflections — in particular, never zero.
    pub open spec fn wf(&self) -> bool {
        &&& self.sample.shapesize == 21
        &&& 0 <= self.sample.x <= DA_WIDTH
        &&& 0 <= self.sample.y <= DA_HEIGHT
        &&& self.xv != 0 && -5 <= self.xv <= 5
        &&& self.yv != 0 && -5 <= self.yv <= 5
    }

    /// Start a publisher role: one sample with the configured color at the
    /// origin, and a velocity drawn by the lottery, nonzero on both axes.
    pub fn new(color: String) -> (r: PublisherRole)
        ensures
            r.wf(),
            r.sample.color@ == color@,
            r.sample.x == 0,
            r.sample.y == 0,
            r.sample.shapesize == 21,
    {
        let xv = pick_velocity_component();
        let yv = pick_velocity_component();
        PublisherRole { sample: Shape { color, x: 0, y: 0, shapesize: 21 }, xv, yv }
    }

    /// One timeout tick: advance the sample one bounded-motion step, keep it
    /// as the new state, and hand back an equal sample to publish — a
    /// full-state replace, not a delta.
    pub fn tick(&mut self) -> (s: Shape)
        requires
            old(self).wf(),
        ensures
            final(self).wf(),
            final(self).sample.color@ == old(self).sample.color@,
            final(self).sample.shapesize == old(self).sample.shapesize,
            (final(self).sample.x as int, final(self).xv as int) == reflect_axis(
                old(self).sample.x as int,
                old(self).xv as int,
                half_size(21),
                DA_WIDTH - half_size(21),
            ),
            (final(self).sample.y as int, final(self).yv as int) == reflect_axis(
                old(self).sample.y as int,
                old(self).yv as int,
                half_size(21),
                DA_HEIGHT - half_size(21),
            ),
            s.color@ == final(self).sample.color@,
            s.x == final(self).sample.x,
            s.y == final(self).sample.y,
            s.shapesize == final(self).sample.shapesize,
    {
        let moved = move_shape(
            Shape {
                color: self.sample.color.clone(),
                x: self.sample.x,
                y: self.sample.y,
                shapesize: self.sample.shapesize,
            },
            self.xv,
            self.yv,
        );
        self.sample = moved.0;
        self.xv = moved.1;
        self.yv = moved.2;
        Shape {
            color: self.sample.color.clone(),
            x: self.sample.x,
            y: self.sample.y,
            shapesize: self.sample.shapesize,
        }
    }
}

} // verus!
