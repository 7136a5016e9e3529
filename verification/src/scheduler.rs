//! The measurement scheduler as a state machine.
//!
//! A run is a sequence of cycles. Each cycle sends a fixed number of latency
//! probes, pausing after each, and then takes one throughput sample. The
//! scheduler itself neither waits nor sends: it names the next thing to do
//! as an [`Action`], the caller does it and reports what came of it as an
//! [`Event`]. A run ends when its time is up at the start of a cycle, when a
//! data point can no longer be handed to its consumer, or when no probe can
//! be sent on this system.

use vstd::prelude::*;
use crate::datapoint::Datapoint;
use crate::latency::PingResult;
use crate::latency::ping_callback;
use crate::latency::probe_sample;
use crate::throughput::DownloadResult;
use crate::throughput::sample_rate;
use crate::throughput::throughput_sample;
use crate::time::Span;
use crate::time::Timestamp;
use crate::time::elapsed_between;

verus! {

/// How many latency probes are sent before each throughput sample.
pub const LATENCY_DOWNLOAD_RATIO: usize = 10;

/// Why a run has ended.
#[derive(Clone, Copy, Debug, PartialEq, Eq, Structural)]
pub enum StopReason {
    /// The run had lasted longer than allowed when a cycle was about to begin.
    DurationReached,
    /// A data point could not be handed over: nobody listens any more.
    ConsumerGone,
    /// No probe could be sent on this system.
    ProbeUnavailable,
}

/// What the scheduler is waiting for.
#[derive(Clone, Copy, Debug, PartialEq, Eq, Structural)]
pub enum Phase {
    /// A reading of the clock, to decide whether another cycle may begin.
    AwaitClock,
    /// The outcome of a probe; `done` probes of this cycle came before it.
    AwaitProbe { done: usize },
    /// Word on whether the latency data point of probe `done` was handed over.
    AwaitLatencyPublished { done: usize },
    /// The end of the pause after probe `done`.
    AwaitWake { done: usize },
    /// The fetches of the throughput sample.
    AwaitSample,
    /// Word on whether the throughput data point was handed over.
    AwaitThroughputPublished,
    /// Nothing: the run has ended.
    Stopped(StopReason),
}

/// What the caller is to do next.
#[derive(Clone, Debug, PartialEq, Eq)]
pub enum Action {
    /// Read the clock and report [`Event::Clock`].
    ReadClock,
    /// Send one probe to the given host and report [`Event::Probed`] or
    /// [`Event::ProbeFailed`].
    Probe(String),
    /// Hand the data point to the consumer and report [`Event::Published`].
    Publish(Datapoint),
    /// Pause for the given time and report [`Event::Woke`].
    Sleep(Span),
    /// Fetch all download URLs and report [`Event::Sampled`].
    Sample,
    /// End the run.
    Exit(StopReason),
}

/// What came of the last action.
#[derive(Debug)]
pub enum Event {
    /// The clock was read.
    Clock(Timestamp),
    /// A probe gave its first message, if any, at the given moment.
    Probed(Option<PingResult>, Timestamp),
    /// The probe could not be sent at all.
    ProbeFailed,
    /// The data point was handed over (`true`) or the consumer is gone (`false`).
    Published(bool),
    /// The pause is over.
    Woke,
    /// All fetches of a sample are done: each one's result or `None` where it
    /// failed, the time until the last was done, and the moment that was.
    Sampled(Vec<Option<DownloadResult>>, Span, Timestamp),
}

/// Why the scheduler refuses what it is asked.
#[derive(Clone, Copy, Debug, PartialEq, Eq, Structural)]
pub enum SchedulerError {
    /// An event was reported that the scheduler was not waiting for.
    UnexpectedEvent,
    /// A run was to begin, but no probe can be set up on this system.
    ProbeUnavailable,
}

/// The state of one run.
#[derive(Clone, Debug, PartialEq, Eq)]
pub struct Scheduler {
    /// The host that every probe of the run is sent to.
    pub target: String,
    /// The pause after each probe.
    pub ping_delay: Span,
    /// How long the run may last, if it is limited.
    pub cap: Option<Span>,
    /// The number of probes in a cycle.
    pub ratio: usize,
    /// When the run began.
    pub started: Timestamp,
    /// The clock reading that let the latest cycle of a limited run begin.
    pub admitted: Option<Timestamp>,
    /// What the scheduler is waiting for.
    pub phase: Phase,
}

impl Scheduler {
    /// Whether the scheduler is within a cycle: past the check at its start.
    pub open spec fn in_cycle(self) -> bool {
        match self.phase {
            Phase::AwaitClock => false,
            Phase::Stopped(_) => false,
            _ => true,
        }
    }

    /// No probe of a cycle is counted beyond the cycle's length, and a cycle
    /// of a limited run was let in by a clock reading within the limit.
    pub open spec fn wf(self) -> bool {
        &&& match self.phase {
            Phase::AwaitProbe { done } => done < self.ratio,
            Phase::AwaitLatencyPublished { done } => done < self.ratio,
            Phase::AwaitWake { done } => done < self.ratio,
            _ => true,
        }
        &&& (self.cap is Some && self.in_cycle()) ==> (self.admitted matches Some(t)
            && elapsed_between(self.started, t) <= self.cap->0.nanos)
    }

    /// This scheduler in another phase.
    pub open spec fn at_phase(self, phase: Phase) -> Scheduler {
        Scheduler { phase, ..self }
    }

    /// The run has ended for `reason`.
    pub open spec fn stop(self, reason: StopReason) -> (Scheduler, Action) {
        (self.at_phase(Phase::Stopped(reason)), Action::Exit(reason))
    }

    /// The probes of a cycle begin; a cycle without probes goes on to its sample.
    pub open spec fn enter_probes(self) -> (Scheduler, Action) {
        if self.ratio == 0 {
            (self.at_phase(Phase::AwaitSample), Action::Sample)
        } else {
            (self.at_phase(Phase::AwaitProbe { done: 0 }), Action::Probe(self.target))
        }
    }

    /// A cycle begins: a limited run looks at the clock first.
    pub open spec fn enter_cycle(self) -> (Scheduler, Action) {
        if self.cap is Some {
            (self.at_phase(Phase::AwaitClock), Action::ReadClock)
        } else {
            self.enter_probes()
        }
    }

    /// Whether `event` is what the scheduler is waiting for.
    pub open spec fn expects(self, event: Event) -> bool {
        match self.phase {
            Phase::AwaitClock => event is Clock,
            Phase::AwaitProbe { .. } => event is Probed || event is ProbeFailed,
            Phase::AwaitLatencyPublished { .. } => event is Published,
            Phase::AwaitWake { .. } => event is Woke,
            Phase::AwaitSample => event is Sampled,
            Phase::AwaitThroughputPublished => event is Published,
            Phase::Stopped(_) => false,
        }
    }

    /// The state that an expected `event` leads to and the action that
    /// follows it. Of an event that is not expected the value says nothing.
    pub open spec fn next(self, event: Event) -> (Scheduler, Action) {
        match (self.phase, event) {
            (Phase::AwaitClock, Event::Clock(now)) => {
                if self.cap is Some && elapsed_between(self.started, now) > self.cap->0.nanos {
                    self.stop(StopReason::DurationReached)
                } else {
                    (Scheduler { admitted: Some(now), ..self }).enter_probes()
                }
            },
            (Phase::AwaitProbe { done }, Event::Probed(message, at)) => {
                match probe_sample(message) {
                    Some(latency) => (
                        self.at_phase(Phase::AwaitLatencyPublished { done }),
                        Action::Publish(Datapoint::Latency(latency, at)),
                    ),
                    None => (self.at_phase(Phase::AwaitWake { done }), Action::Sleep(
                        self.ping_delay,
                    )),
                }
            },
            (Phase::AwaitProbe { .. }, Event::ProbeFailed) => self.stop(
                StopReason::ProbeUnavailable,
            ),
            (Phase::AwaitLatencyPublished { done }, Event::Published(delivered)) => {
                if delivered {
                    (self.at_phase(Phase::AwaitWake { done }), Action::Sleep(self.ping_delay))
                } else {
                    self.stop(StopReason::ConsumerGone)
                }
            },
            (Phase::AwaitWake { done }, Event::Woke) => {
                if done < self.ratio && self.ratio - done > 1 {
                    (
                        self.at_phase(Phase::AwaitProbe { done: (done + 1) as usize }),
                        Action::Probe(self.target),
                    )
                } else {
                    (self.at_phase(Phase::AwaitSample), Action::Sample)
                }
            },
            (Phase::AwaitSample, Event::Sampled(fetches, completion_time, at)) => (
                self.at_phase(Phase::AwaitThroughputPublished),
                Action::Publish(
                    Datapoint::ThroughputDown(sample_rate(fetches@, completion_time), at),
                ),
            ),
            (Phase::AwaitThroughputPublished, Event::Published(delivered)) => {
                if delivered {
                    self.enter_cycle()
                } else {
                    self.stop(StopReason::ConsumerGone)
                }
            },
            _ => (self, Action::Exit(StopReason::ConsumerGone)),
        }
    }

    /// The state after `event`: an event that was not waited for changes nothing.
    pub open spec fn after(self, event: Event) -> Scheduler {
        if self.expects(event) {
            self.next(event).0
        } else {
            self
        }
    }

    /// The state after all of `events`, taken in order.
    pub open spec fn run(self, events: Seq<Event>) -> Scheduler
        decreases events.len(),
    {
        if events.len() == 0 {
            self
        } else {
            self.after(events.first()).run(events.drop_first())
        }
    }

    /// The actions that `events` call forth, in order. An event that was not
    /// waited for calls forth none.
    pub open spec fn trace(self, events: Seq<Event>) -> Seq<Action>
        decreases events.len(),
    {
        if events.len() == 0 {
            Seq::empty()
        } else if self.expects(events.first()) {
            seq![self.next(events.first()).1] + self.after(events.first()).trace(
                events.drop_first(),
            )
        } else {
            self.trace(events.drop_first())
        }
    }

    /// The data points that `events` make the scheduler hand out, in order.
    pub open spec fn published(self, events: Seq<Event>) -> Seq<Datapoint>
        decreases events.len(),
    {
        if events.len() == 0 {
            Seq::empty()
        } else if self.expects(events.first()) && self.next(events.first()).1 is Publish {
            seq![self.next(events.first()).1->Publish_0] + self.after(events.first()).published(
                events.drop_first(),
            )
        } else {
            self.after(events.first()).published(events.drop_first())
        }
    }

    /// The scheduler of a run that is about to begin at `now`: `ratio` probes
    /// to `target` in each cycle, a pause of `ping_delay` after each probe,
    /// and no cycle begun once the run has lasted longer than `cap`.
    pub open spec fn fresh(
        target: String,
        ping_delay: Span,
        cap: Option<Span>,
        ratio: usize,
        now: Timestamp,
    ) -> Scheduler {
        Scheduler {
            target,
            ping_delay,
            cap,
            ratio,
            started: now,
            admitted: None,
            phase: Phase::AwaitClock,
        }
    }

    /// The scheduler of a run begun at `now`, before anything was reported to it.
    pub open spec fn begun(
        target: String,
        ping_delay: Span,
        cap: Option<Span>,
        ratio: usize,
        now: Timestamp,
    ) -> Scheduler {
        Scheduler::fresh(target, ping_delay, cap, ratio, now).enter_cycle().0
    }

    /// The first thing that a run begun at `now` asks for.
    pub open spec fn first_action(
        target: String,
        ping_delay: Span,
        cap: Option<Span>,
        ratio: usize,
        now: Timestamp,
    ) -> Action {
        Scheduler::fresh(target, ping_delay, cap, ratio, now).enter_cycle().1
    }

    /// Begins a run at the moment `now`: `ratio` probes to `target` in each
    /// cycle, a pause of `ping_delay` after each probe, and no cycle begun
    /// once the run has lasted longer than `cap`. `probe_ready` says whether
    /// a probe to `target` could be set up on this system: where it could
    /// not, the run is refused and nothing is begun. Otherwise returns the
    /// scheduler and the first thing to do.
    pub fn start(
        target: String,
        ping_delay: Span,
        cap: Option<Span>,
        ratio: usize,
        probe_ready: bool,
        now: Timestamp,
    ) -> (res: Result<(Scheduler, Action), SchedulerError>)
        ensures
            !probe_ready ==> res == Err::<(Scheduler, Action), SchedulerError>(
                SchedulerError::ProbeUnavailable,
            ),
            probe_ready ==> res == Ok::<(Scheduler, Action), SchedulerError>(
                (
                    Scheduler::begun(target, ping_delay, cap, ratio, now),
                    Scheduler::first_action(target, ping_delay, cap, ratio, now),
                ),
            ),
            res matches Ok(run) ==> run.0.wf() && run.0.target == target && run.1 == if cap
                is Some {
                Action::ReadClock
            } else if ratio == 0 {
                Action::Sample
            } else {
                Action::Probe(target)
            },
    {
        if !probe_ready {
            return Err(SchedulerError::ProbeUnavailable);
        }
        let mut run = Scheduler {
            target,
            ping_delay,
            cap,
            ratio,
            started: now,
            admitted: None,
            phase: Phase::AwaitClock,
        };
        let action = run.begin_cycle();
        Ok((run, action))
    }

    fn wait_for(&mut self, phase: Phase)
        ensures
            *final(self) == old(self).at_phase(phase),
    {
        self.phase = phase;
    }

    fn halt(&mut self, reason: StopReason) -> (action: Action)
        ensures
            (*final(self), action) == old(self).stop(reason),
    {
        self.wait_for(Phase::Stopped(reason));
        Action::Exit(reason)
    }

    fn begin_probes(&mut self) -> (action: Action)
        ensures
            (*final(self), action) == old(self).enter_probes(),
    {
        if self.ratio == 0 {
            self.wait_for(Phase::AwaitSample);
            Action::Sample
        } else {
            self.wait_for(Phase::AwaitProbe { done: 0 });
            Action::Probe(self.target.clone())
        }
    }

    fn begin_cycle(&mut self) -> (action: Action)
        ensures
            (*final(self), action) == old(self).enter_cycle(),
    {
        if self.cap.is_some() {
            self.wait_for(Phase::AwaitClock);
            Action::ReadClock
        } else {
            self.begin_probes()
        }
    }

    /// Whether the run has ended.
    pub fn is_stopped(&self) -> (stopped: bool)
        ensures
            stopped == (self.phase is Stopped),
    {
        match self.phase {
            Phase::Stopped(_) => true,
            _ => false,
        }
    }

    /// Takes in what came of the last action and names the next one. An
    /// event that the scheduler was not waiting for is refused and changes
    /// nothing; a scheduler that has stopped waits for none.
    pub fn step(&mut self, event: Event) -> (res: Result<Action, SchedulerError>)
        ensures
            old(self).expects(event) ==> res == Ok::<Action, SchedulerError>(
                old(self).next(event).1,
            ) && *final(self) == old(self).next(event).0,
            !old(self).expects(event) ==> res == Err::<Action, SchedulerError>(
                SchedulerError::UnexpectedEvent,
            ) && *final(self) == *old(self),
            *final(self) == old(self).after(event),
            old(self).wf() ==> final(self).wf(),
            final(self).target == old(self).target,
            final(self).ping_delay == old(self).ping_delay,
            final(self).cap == old(self).cap,
            final(self).ratio == old(self).ratio,
            final(self).started == old(self).started,
            res matches Ok(Action::Probe(host)) ==> host == old(self).target,
    {
        let action = match (self.phase, event) {
            (Phase::AwaitClock, Event::Clock(now)) => {
                let over = match self.cap {
                    Some(limit) => self.started.elapsed_at(now).nanos > limit.nanos,
                    None => false,
                };
                if over {
                    self.halt(StopReason::DurationReached)
                } else {
                    self.admitted = Some(now);
                    self.begin_probes()
                }
            },
            (Phase::AwaitProbe { done }, Event::Probed(message, at)) => {
                match ping_callback(message) {
                    Some(latency) => {
                        self.wait_for(Phase::AwaitLatencyPublished { done });
                        Action::Publish(Datapoint::add_latency(latency, at))
                    },
                    None => {
                        self.wait_for(Phase::AwaitWake { done });
                        Action::Sleep(self.ping_delay)
                    },
                }
            },
            (Phase::AwaitProbe { .. }, Event::ProbeFailed) => self.halt(
                StopReason::ProbeUnavailable,
            ),
            (Phase::AwaitLatencyPublished { done }, Event::Published(delivered)) => {
                if delivered {
                    self.wait_for(Phase::AwaitWake { done });
                    Action::Sleep(self.ping_delay)
                } else {
                    self.halt(StopReason::ConsumerGone)
                }
            },
            (Phase::AwaitWake { done }, Event::Woke) => {
                if done < self.ratio && self.ratio - done > 1 {
                    self.wait_for(Phase::AwaitProbe { done: done + 1 });
                    Action::Probe(self.target.clone())
                } else {
                    self.wait_for(Phase::AwaitSample);
                    Action::Sample
                }
            },
            (Phase::AwaitSample, Event::Sampled(fetches, completion_time, at)) => {
                let rate = throughput_sample(&fetches, completion_time);
                self.wait_for(Phase::AwaitThroughputPublished);
                Action::Publish(Datapoint::add_tp_down(rate, at))
            },
            (Phase::AwaitThroughputPublished, Event::Published(delivered)) => {
                if delivered {
                    self.begin_cycle()
                } else {
                    self.halt(StopReason::ConsumerGone)
                }
            },
            _ => {
                return Err(SchedulerError::UnexpectedEvent);
            },
        };
        Ok(action)
    }
}

/// Whatever happens in a run, the scheduler keeps its settings and stays
/// well formed.
pub proof fn lemma_run_keeps_wf(s: Scheduler, events: Seq<Event>)
    requires
        s.wf(),
    ensures
        s.run(events).wf(),
        s.run(events).target == s.target,
        s.run(events).ping_delay == s.ping_delay,
        s.run(events).cap == s.cap,
        s.run(events).ratio == s.ratio,
        s.run(events).started == s.started,
    decreases events.len(),
{
    if events.len() > 0 {
        lemma_run_keeps_wf(s.after(events.first()), events.drop_first());
    }
}

/// A run that has ended stays ended: no event changes the scheduler or
/// calls forth another action.
pub proof fn lemma_stopped_is_final(s: Scheduler, events: Seq<Event>)
    requires
        s.phase is Stopped,
    ensures
        s.run(events) == s,
        s.trace(events) == Seq::<Action>::empty(),
    decreases events.len(),
{
    if events.len() > 0 {
        lemma_stopped_is_final(s, events.drop_first());
    }
}

/// When a data point cannot be handed over, the run ends at once: whatever
/// is reported afterwards, the only action left is to exit. No probe and no
/// sample follows a failed publish.
pub proof fn lemma_failed_publish_ends_run(s: Scheduler, events: Seq<Event>)
    requires
        s.phase is AwaitLatencyPublished || s.phase is AwaitThroughputPublished,
    ensures
        s.trace(seq![Event::Published(false)] + events) == seq![
            Action::Exit(StopReason::ConsumerGone),
        ],
        s.run(seq![Event::Published(false)] + events).phase == Phase::Stopped(
            StopReason::ConsumerGone,
        ),
{
    let all = seq![Event::Published(false)] + events;
    assert(all.first() == Event::Published(false));
    assert(all.drop_first() =~= events);
    let stopped = s.after(Event::Published(false));
    lemma_stopped_is_final(stopped, events);
    assert(s.trace(all) =~= seq![Action::Exit(StopReason::ConsumerGone)]);
}

/// When the clock at the start of a cycle shows that a limited run has
/// lasted longer than allowed, the run ends: the only action left is to exit.
pub proof fn lemma_overdue_clock_ends_run(s: Scheduler, now: Timestamp, events: Seq<Event>)
    requires
        s.phase == Phase::AwaitClock,
        s.cap matches Some(limit) && elapsed_between(s.started, now) > limit.nanos,
    ensures
        s.trace(seq![Event::Clock(now)] + events) == seq![
            Action::Exit(StopReason::DurationReached),
        ],
        s.run(seq![Event::Clock(now)] + events).phase == Phase::Stopped(
            StopReason::DurationReached,
        ),
{
    let all = seq![Event::Clock(now)] + events;
    assert(all.first() == Event::Clock(now));
    assert(all.drop_first() =~= events);
    let stopped = s.after(Event::Clock(now));
    lemma_stopped_is_final(stopped, events);
    assert(s.trace(all) =~= seq![Action::Exit(StopReason::DurationReached)]);
}

/// In a limited run, a data point that is taken no more than `slack` after
/// the clock reading that let its cycle begin is stamped no later than the
/// start of the run plus the limit plus `slack`.
pub proof fn lemma_published_within_cap(s: Scheduler, event: Event, slack: nat)
    requires
        s.wf(),
        s.cap is Some,
        s.expects(event),
        s.next(event).1 matches Action::Publish(dp) && (s.admitted matches Some(t)
            ==> elapsed_between(t, dp.taken_at()) <= slack),
    ensures
        s.in_cycle(),
        s.next(event).1 matches Action::Publish(dp) && dp.taken_at().nanos <= s.started.nanos
            + s.cap->0.nanos + slack,
{
}

/// Within a cycle the latency probes come first: a throughput sample is
/// called for only after the last probe of the cycle, and a probe only
/// while the cycle has probes left.
pub proof fn lemma_sample_follows_probes(s: Scheduler, event: Event)
    requires
        s.wf(),
        s.expects(event),
    ensures
        s.next(event).1 == Action::Sample ==> (s.ratio == 0 || s.phase == Phase::AwaitWake {
            done: (s.ratio - 1) as usize,
        }),
        s.next(event).1 is Probe ==> (s.next(event).0.phase matches Phase::AwaitProbe { done }
            && done < s.ratio),
{
}

/// A limited run, begun at `started`, hands out no data point stamped later
/// than `started` plus the limit plus `slack`, as long as the data point is
/// taken no more than `slack` after the clock reading that let its cycle
/// begin. This holds after whatever `events` went before.
pub proof fn lemma_run_publishes_within_cap(
    target: String,
    ping_delay: Span,
    limit: Span,
    ratio: usize,
    started: Timestamp,
    events: Seq<Event>,
    event: Event,
    slack: nat,
)
    requires
        Scheduler::begun(target, ping_delay, Some(limit), ratio, started).run(events).expects(event),
        ({
            let s = Scheduler::begun(target, ping_delay, Some(limit), ratio, started).run(events);
            s.next(event).1 matches Action::Publish(dp) && (s.admitted matches Some(t)
                ==> elapsed_between(t, dp.taken_at()) <= slack)
        }),
    ensures
        ({
            let s = Scheduler::begun(target, ping_delay, Some(limit), ratio, started).run(events);
            s.next(event).1 matches Action::Publish(dp) && dp.taken_at().nanos <= started.nanos
                + limit.nanos + slack
        }),
{
    let first = Scheduler::begun(target, ping_delay, Some(limit), ratio, started);
    lemma_run_keeps_wf(first, events);
    lemma_published_within_cap(first.run(events), event, slack);
}

/// The scheduler hands out latencies and download rates only: nothing in
/// it measures an upload.
pub proof fn lemma_never_publishes_upload(s: Scheduler, event: Event)
    requires
        s.expects(event),
    ensures
        s.next(event).1 matches Action::Publish(dp) ==> !(dp is ThroughputUp),
{
}

/// The moment that an event reports a measurement for, if it reports one.
pub open spec fn event_time(event: Event) -> Option<Timestamp> {
    match event {
        Event::Probed(_, at) => Some(at),
        Event::Sampled(_, _, at) => Some(at),
        _ => None,
    }
}

/// Whether the measurements that `events` report are stamped in the order
/// in which they are reported.
pub open spec fn timed_in_order(events: Seq<Event>) -> bool {
    forall|i: int, j: int|
        0 <= i < j < events.len() && event_time(#[trigger] events[i]) is Some && event_time(
            #[trigger] events[j],
        ) is Some ==> event_time(events[i])->0.nanos <= event_time(events[j])->0.nanos
}

/// Each data point that is handed out carries the moment of one of the
/// events that were reported.
pub proof fn lemma_published_stamps_come_from_events(s: Scheduler, events: Seq<Event>, k: int)
    requires
        0 <= k < s.published(events).len(),
    ensures
        exists|i: int|
            0 <= i < events.len() && event_time(#[trigger] events[i]) == Some(
                s.published(events)[k].taken_at(),
            ),
    decreases events.len(),
{
    let head = events.first();
    let rest = events.drop_first();
    let after = s.after(head);
    if s.expects(head) && s.next(head).1 is Publish {
        if k == 0 {
            assert(event_time(events[0]) == Some(s.published(events)[0].taken_at()));
        } else {
            assert(s.published(events)[k] == after.published(rest)[k - 1]);
            lemma_published_stamps_come_from_events(after, rest, k - 1);
            let i = choose|i: int|
                0 <= i < rest.len() && event_time(#[trigger] rest[i]) == Some(
                    after.published(rest)[k - 1].taken_at(),
                );
            assert(events[i + 1] == rest[i]);
        }
    } else {
        lemma_published_stamps_come_from_events(after, rest, k);
        let i = choose|i: int|
            0 <= i < rest.len() && event_time(#[trigger] rest[i]) == Some(
                after.published(rest)[k].taken_at(),
            );
        assert(events[i + 1] == rest[i]);
    }
}

/// Data points are handed out in the order in which they were measured:
/// where the reported moments never go back, neither do the stamps of the
/// data points.
pub proof fn lemma_published_in_order(s: Scheduler, events: Seq<Event>)
    requires
        timed_in_order(events),
    ensures
        forall|a: int, b: int|
            0 <= a <= b < s.published(events).len() ==> (#[trigger] s.published(
                events,
            )[a]).taken_at().nanos <= (#[trigger] s.published(events)[b]).taken_at().nanos,
    decreases events.len(),
{
    if events.len() > 0 {
        let head = events.first();
        let rest = events.drop_first();
        let after = s.after(head);
        assert forall|i: int, j: int|
            0 <= i < j < rest.len() && event_time(#[trigger] rest[i]) is Some && event_time(
                #[trigger] rest[j],
            ) is Some implies event_time(rest[i])->0.nanos <= event_time(rest[j])->0.nanos by {
            assert(rest[i] == events[i + 1]);
            assert(rest[j] == events[j + 1]);
        }
        lemma_published_in_order(after, rest);
        let all = s.published(events);
        let tail = after.published(rest);
        if s.expects(head) && s.next(head).1 is Publish {
            assert forall|a: int, b: int| 0 <= a <= b < all.len() implies (#[trigger] all[a]).taken_at().nanos
                <= (#[trigger] all[b]).taken_at().nanos by {
                if a == 0 && b > 0 {
                    assert(all[b] == tail[b - 1]);
                    lemma_published_stamps_come_from_events(after, rest, b - 1);
                    let i = choose|i: int|
                        0 <= i < rest.len() && event_time(#[trigger] rest[i]) == Some(
                            tail[b - 1].taken_at(),
                        );
                    assert(events[i + 1] == rest[i]);
                    assert(event_time(events[0]) == Some(all[0].taken_at()));
                } else if a > 0 {
                    assert(all[a] == tail[a - 1]);
                    assert(all[b] == tail[b - 1]);
                }
            }
        } else {
            assert(all =~= tail);
        }
    }
}

/// How many of `actions` send a probe.
pub open spec fn probes_in(actions: Seq<Action>) -> nat
    decreases actions.len(),
{
    if actions.len() == 0 {
        0
    } else {
        probes_in(actions.drop_first()) + if actions.first() is Probe {
            1nat
        } else {
            0nat
        }
    }
}

/// How many of `actions` take a throughput sample.
pub open spec fn samples_in(actions: Seq<Action>) -> nat
    decreases actions.len(),
{
    if actions.len() == 0 {
        0
    } else {
        samples_in(actions.drop_first()) + if actions.first() is Sample {
            1nat
        } else {
            0nat
        }
    }
}

/// How the probes and samples called for so far stand to the phase of the
/// scheduler: every sample had its full cycle of probes before it, and the
/// cycle under way has sent as many probes as its phase counts.
spec fn in_step(s: Scheduler, probes: nat, samples: nat) -> bool {
    match s.phase {
        Phase::AwaitClock => probes == s.ratio * samples,
        Phase::AwaitProbe { done } => done < s.ratio && probes == s.ratio * samples + done + 1,
        Phase::AwaitLatencyPublished { done } => done < s.ratio && probes == s.ratio * samples
            + done + 1,
        Phase::AwaitWake { done } => done < s.ratio && probes == s.ratio * samples + done + 1,
        Phase::AwaitSample => probes == s.ratio * samples,
        Phase::AwaitThroughputPublished => probes == s.ratio * samples,
        Phase::Stopped(_) => s.ratio * samples <= probes <= s.ratio * samples + s.ratio,
    }
}

/// Counting over a single action.
proof fn lemma_count_single(action: Action)
    ensures
        probes_in(seq![action]) == if action is Probe {
            1nat
        } else {
            0nat
        },
        samples_in(seq![action]) == if action is Sample {
            1nat
        } else {
            0nat
        },
{
    reveal_with_fuel(probes_in, 2);
    reveal_with_fuel(samples_in, 2);
    assert(seq![action].drop_first() =~= Seq::<Action>::empty());
}

/// One expected event keeps probes and samples in step.
proof fn lemma_step_keeps_in_step(s: Scheduler, event: Event, probes: nat, samples: nat)
    requires
        in_step(s, probes, samples),
        s.expects(event),
    ensures
        in_step(
            s.next(event).0,
            probes + probes_in(seq![s.next(event).1]),
            samples + samples_in(seq![s.next(event).1]),
        ),
{
    lemma_count_single(s.next(event).1);
    assert(s.ratio * (samples + 1) == s.ratio * samples + s.ratio) by (nonlinear_arith);
}

/// Counting over a first action and the rest.
proof fn lemma_count_cons(first: Action, rest: Seq<Action>)
    ensures
        probes_in(seq![first] + rest) == probes_in(seq![first]) + probes_in(rest),
        samples_in(seq![first] + rest) == samples_in(seq![first]) + samples_in(rest),
{
    lemma_count_single(first);
    assert((seq![first] + rest).drop_first() =~= rest);
    assert((seq![first] + rest).first() == first);
}

/// A run keeps probes and samples in step.
proof fn lemma_run_keeps_in_step(s: Scheduler, events: Seq<Event>, probes: nat, samples: nat)
    requires
        in_step(s, probes, samples),
    ensures
        in_step(
            s.run(events),
            probes + probes_in(s.trace(events)),
            samples + samples_in(s.trace(events)),
        ),
    decreases events.len(),
{
    if events.len() > 0 {
        let head = events.first();
        let rest = events.drop_first();
        if s.expects(head) {
            let action = s.next(head).1;
            lemma_step_keeps_in_step(s, head, probes, samples);
            lemma_run_keeps_in_step(
                s.after(head),
                rest,
                probes + probes_in(seq![action]),
                samples + samples_in(seq![action]),
            );
            lemma_count_cons(action, s.after(head).trace(rest));
        } else {
            lemma_run_keeps_in_step(s, rest, probes, samples);
        }
    }
}

/// A run is made of cycles of `ratio` probes followed by one sample: among
/// the actions called for from its start on, whatever is reported to it,
/// each sample has its `ratio` probes before it, and the probes are never
/// more than one cycle ahead of the samples.
pub proof fn lemma_cycles_of_probes_then_sample(
    target: String,
    ping_delay: Span,
    cap: Option<Span>,
    ratio: usize,
    started: Timestamp,
    events: Seq<Event>,
)
    ensures
        ({
            let actions = seq![Scheduler::first_action(target, ping_delay, cap, ratio, started)]
                + Scheduler::begun(target, ping_delay, cap, ratio, started).trace(events);
            ratio * samples_in(actions) <= probes_in(actions) <= ratio * samples_in(actions) + ratio
        }),
{
    let first = Scheduler::first_action(target, ping_delay, cap, ratio, started);
    let s = Scheduler::begun(target, ping_delay, cap, ratio, started);
    lemma_count_single(first);
    assert(ratio * 1 == ratio) by (nonlinear_arith);
    assert(ratio * 0 == 0) by (nonlinear_arith);
    assert(in_step(s, probes_in(seq![first]), samples_in(seq![first])));
    lemma_run_keeps_in_step(s, events, probes_in(seq![first]), samples_in(seq![first]));
    lemma_count_cons(first, s.trace(events));
    lemma_run_keeps_wf(s, events);
}

/// Every probe that a scheduler calls for, whatever is reported to it, goes
/// to its target.
pub proof fn lemma_probes_go_to_the_target(s: Scheduler, events: Seq<Event>, k: int)
    requires
        0 <= k < s.trace(events).len(),
    ensures
        s.trace(events)[k] matches Action::Probe(host) ==> host == s.target,
    decreases events.len(),
{
    let head = events.first();
    let rest = events.drop_first();
    if s.expects(head) {
        if k > 0 {
            lemma_probes_go_to_the_target(s.after(head), rest, k - 1);
        }
    } else {
        lemma_probes_go_to_the_target(s, rest, k);
    }
}

/// Every probe of a run goes to the host that the run was begun with: the
/// first action and every action that follows, whatever is reported, names
/// no other host.
pub proof fn lemma_run_probes_one_host(
    target: String,
    ping_delay: Span,
    cap: Option<Span>,
    ratio: usize,
    started: Timestamp,
    events: Seq<Event>,
    k: int,
)
    requires
        0 <= k < Scheduler::begun(target, ping_delay, cap, ratio, started).trace(events).len(),
    ensures
        Scheduler::first_action(target, ping_delay, cap, ratio, started) matches Action::Probe(
            host,
        ) ==> host == target,
        Scheduler::begun(target, ping_delay, cap, ratio, started).trace(
            events,
        )[k] matches Action::Probe(host) ==> host == target,
{
    lemma_probes_go_to_the_target(
        Scheduler::begun(target, ping_delay, cap, ratio, started),
        events,
        k,
    );
}

} // verus!
