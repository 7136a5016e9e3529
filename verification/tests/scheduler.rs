use linetest::latency::PingResult;
use linetest::scheduler::Action;
use linetest::scheduler::Event;
use linetest::scheduler::Phase;
use linetest::scheduler::Scheduler;
use linetest::scheduler::SchedulerError;
use linetest::scheduler::StopReason;
use linetest::scheduler::LATENCY_DOWNLOAD_RATIO;
use linetest::throughput::Mbit;
use linetest::time::Span;
use linetest::time::Timestamp;
use linetest::Datapoint;

const HOST: &str = "192.0.2.7";

fn at_millis(ms: u64) -> Timestamp {
    Timestamp { nanos: ms as i128 * 1_000_000 }
}

/// Begins a run to `HOST` on a system where probes can be set up.
fn start(
    ping_delay: Span,
    cap: Option<Span>,
    ratio: usize,
    now: Timestamp,
) -> (Scheduler, Action) {
    Scheduler::start(HOST.to_string(), ping_delay, cap, ratio, true, now).unwrap()
}

/// Plays the part of the outside world: every probe is answered after one
/// millisecond, every sample takes ten, pauses last as long as asked, and
/// the consumer takes `accepts` data points before it goes away.
struct World {
    now_ms: u64,
    accepts: usize,
    received: Vec<Datapoint>,
    publish_attempts: usize,
    probes: usize,
    probed_hosts: Vec<String>,
    samples: usize,
    slept: Vec<Span>,
}

impl World {
    fn new(accepts: usize) -> World {
        World {
            now_ms: 0,
            accepts,
            received: vec![],
            publish_attempts: 0,
            probes: 0,
            probed_hosts: vec![],
            samples: 0,
            slept: vec![],
        }
    }

    fn perform(&mut self, action: Action) -> Option<Event> {
        match action {
            Action::ReadClock => Some(Event::Clock(at_millis(self.now_ms))),
            Action::Probe(host) => {
                self.probed_hosts.push(host);
                self.probes += 1;
                self.now_ms += 1;
                Some(Event::Probed(
                    Some(PingResult::Pong(Span::from_millis(1))),
                    at_millis(self.now_ms),
                ))
            }
            Action::Publish(dp) => {
                self.publish_attempts += 1;
                if self.received.len() < self.accepts {
                    self.received.push(dp);
                    Some(Event::Published(true))
                } else {
                    Some(Event::Published(false))
                }
            }
            Action::Sleep(d) => {
                self.slept.push(d);
                self.now_ms += d.as_millis() as u64;
                Some(Event::Woke)
            }
            Action::Sample => {
                self.samples += 1;
                self.now_ms += 10;
                Some(Event::Sampled(
                    vec![Some((Span::from_millis(10), 1_250_000))],
                    Span::from_millis(10),
                    at_millis(self.now_ms),
                ))
            }
            Action::Exit(_) => None,
        }
    }

    /// Runs until the scheduler exits; gives the reason and the number of
    /// steps taken. Panics where the run does not end within `max_steps`.
    fn drive(&mut self, start: (Scheduler, Action), max_steps: usize) -> (StopReason, usize) {
        let (mut scheduler, mut action) = start;
        let mut steps = 0;
        loop {
            if let Action::Exit(reason) = &action {
                assert!(scheduler.is_stopped());
                return (*reason, steps);
            }
            assert!(steps < max_steps, "the run did not end");
            let event = self.perform(action).unwrap();
            action = scheduler.step(event).unwrap();
            steps += 1;
        }
    }
}

#[test]
fn unlimited_run_begins_with_a_probe() {
    let (s, action) = start(Span::from_secs(7), None, 10, at_millis(0));
    assert_eq!(action, Action::Probe(HOST.to_string()));
    assert_eq!(s.phase, Phase::AwaitProbe { done: 0 });
    assert_eq!(s.target, HOST);
    assert_eq!(s.ping_delay, Span::from_secs(7));
    assert_eq!(s.cap, None);
    assert_eq!(s.ratio, 10);
    assert_eq!(s.started, at_millis(0));
    assert!(!s.is_stopped());
}

#[test]
fn limited_run_begins_with_the_clock() {
    let cap = Some(Span::from_secs(20));
    let (s, action) = start(Span::from_secs(7), cap, 10, at_millis(5));
    assert_eq!(action, Action::ReadClock);
    assert_eq!(s.phase, Phase::AwaitClock);
    assert_eq!(s.cap, cap);
    assert_eq!(s.admitted, None);
}

#[test]
fn run_without_probes_begins_with_a_sample() {
    let (s, action) = start(Span::from_secs(7), None, 0, at_millis(0));
    assert_eq!(action, Action::Sample);
    assert_eq!(s.phase, Phase::AwaitSample);
}

#[test]
fn ten_probes_then_one_sample() {
    let mut world = World::new(22);
    let start = start(Span::from_millis(5), None, LATENCY_DOWNLOAD_RATIO, at_millis(0));
    let (reason, _) = world.drive(start, 1000);
    assert_eq!(reason, StopReason::ConsumerGone);
    assert_eq!(world.received.len(), 22);
    for (i, dp) in world.received.iter().enumerate() {
        let is_latency = matches!(dp, Datapoint::Latency(Some(_), _));
        let is_download = matches!(dp, Datapoint::ThroughputDown(Some(_), _));
        if i % 11 == 10 {
            assert!(is_download, "entry {} should be the sample of its cycle", i);
        } else {
            assert!(is_latency, "entry {} should be a probe", i);
        }
    }
    // 1.25 MB in 10 ms is 1000 Mbit/s
    assert_eq!(
        world.received[10],
        Datapoint::ThroughputDown(Some(Mbit { micro: 1_000_000_000 }), at_millis(10 * 6 + 10))
    );
    assert_eq!(world.received[0], Datapoint::Latency(Some(Span::from_millis(1)), at_millis(1)));
    assert!(world.slept.iter().all(|d| *d == Span::from_millis(5)));
}

#[test]
fn timestamps_follow_the_clock_that_is_handed_in() {
    let mut world = World::new(30);
    let start = start(Span::from_millis(5), None, 10, at_millis(0));
    world.drive(start, 1000);
    let stamps: Vec<Timestamp> = world.received.iter().map(|dp| dp.timestamp()).collect();
    assert!(stamps.windows(2).all(|w| w[0].nanos <= w[1].nanos));
}

#[test]
fn run_ends_when_its_time_is_up_even_without_pauses() {
    // No pause between probes and a limit of 100 ms: a cycle takes 20 ms
    // here, so the clock check at the start of the sixth or seventh cycle
    // ends the run.
    let mut world = World::new(usize::MAX);
    let start =
        start(Span::zero(), Some(Span::from_millis(100)), 10, at_millis(0));
    let (reason, steps) = world.drive(start, 10_000);
    assert_eq!(reason, StopReason::DurationReached);
    assert!(steps < 300);
    // cycles begin at 0, 20, 40, 60, 80 and 100 ms: 100 is not beyond the limit
    assert_eq!(world.samples, 6);
    assert_eq!(world.probes, 60);
    assert_eq!(world.received.len(), 66);
    assert_eq!(world.now_ms, 120);
}

#[test]
fn limit_is_checked_at_the_start_of_a_cycle_only() {
    let cap = Some(Span::from_millis(100));
    let (mut s, _) = start(Span::from_secs(7), cap, 10, at_millis(0));
    assert_eq!(s.step(Event::Clock(at_millis(100))), Ok(Action::Probe(HOST.to_string())));
    assert_eq!(s.admitted, Some(at_millis(100)));
    assert_eq!(
        s.step(Event::Probed(Some(PingResult::Timeout), at_millis(5000))),
        Ok(Action::Publish(Datapoint::Latency(None, at_millis(5000))))
    );
    assert_eq!(s.step(Event::Published(true)), Ok(Action::Sleep(Span::from_secs(7))));
    assert_eq!(s.step(Event::Woke), Ok(Action::Probe(HOST.to_string())));
    assert_eq!(s.phase, Phase::AwaitProbe { done: 1 });
}

#[test]
fn clock_beyond_the_limit_ends_the_run() {
    let cap = Some(Span::from_millis(100));
    let (mut s, _) = start(Span::from_secs(7), cap, 10, at_millis(1000));
    assert_eq!(
        s.step(Event::Clock(at_millis(1101))),
        Ok(Action::Exit(StopReason::DurationReached))
    );
    assert_eq!(s.phase, Phase::Stopped(StopReason::DurationReached));
    assert!(s.is_stopped());
}

#[test]
fn clock_that_went_back_counts_as_no_time_passed() {
    let cap = Some(Span::from_millis(100));
    let (mut s, _) = start(Span::from_secs(7), cap, 10, at_millis(1000));
    assert_eq!(s.step(Event::Clock(at_millis(10))), Ok(Action::Probe(HOST.to_string())));
}

#[test]
fn consumer_that_leaves_after_three_data_points() {
    let mut world = World::new(3);
    let start = start(Span::from_millis(5), None, 10, at_millis(0));
    let (reason, _) = world.drive(start, 1000);
    assert_eq!(reason, StopReason::ConsumerGone);
    assert_eq!(world.received.len(), 3);
    assert_eq!(world.publish_attempts, 4);
    // the fourth probe gave the data point that could not be handed over;
    // no fifth probe and no sample followed
    assert_eq!(world.probes, 4);
    assert_eq!(world.samples, 0);
    assert_eq!(world.slept.len(), 3);
}

#[test]
fn consumer_that_leaves_before_the_sample_is_published() {
    let mut world = World::new(10);
    let start = start(Span::from_millis(5), None, 10, at_millis(0));
    let (reason, _) = world.drive(start, 1000);
    assert_eq!(reason, StopReason::ConsumerGone);
    assert_eq!(world.probes, 10);
    assert_eq!(world.samples, 1);
    assert_eq!(world.publish_attempts, 11);
}

#[test]
fn stopped_scheduler_takes_no_event() {
    let (mut s, _) = start(Span::from_secs(1), None, 10, at_millis(0));
    s.step(Event::Probed(Some(PingResult::Timeout), at_millis(1))).unwrap();
    assert_eq!(s.step(Event::Published(false)), Ok(Action::Exit(StopReason::ConsumerGone)));
    let stopped = s.clone();
    assert_eq!(s.step(Event::Woke), Err(SchedulerError::UnexpectedEvent));
    assert_eq!(s.step(Event::Published(true)), Err(SchedulerError::UnexpectedEvent));
    assert_eq!(s.step(Event::Clock(at_millis(9))), Err(SchedulerError::UnexpectedEvent));
    assert_eq!(s, stopped);
}

#[test]
fn unexpected_event_changes_nothing() {
    let (mut s, _) = start(Span::from_secs(1), None, 10, at_millis(0));
    let before = s.clone();
    assert_eq!(s.step(Event::Woke), Err(SchedulerError::UnexpectedEvent));
    assert_eq!(s.step(Event::Published(true)), Err(SchedulerError::UnexpectedEvent));
    assert_eq!(
        s.step(Event::Sampled(vec![], Span::zero(), at_millis(0))),
        Err(SchedulerError::UnexpectedEvent)
    );
    assert_eq!(s, before);
}

#[test]
fn probe_that_cannot_be_sent_ends_the_run() {
    let (mut s, _) = start(Span::from_secs(1), None, 10, at_millis(0));
    assert_eq!(s.step(Event::ProbeFailed), Ok(Action::Exit(StopReason::ProbeUnavailable)));
    assert_eq!(s.phase, Phase::Stopped(StopReason::ProbeUnavailable));
}

#[test]
fn unknown_probe_output_is_not_published() {
    let (mut s, _) = start(Span::from_secs(3), None, 2, at_millis(0));
    assert_eq!(
        s.step(Event::Probed(Some(PingResult::Unknown), at_millis(1))),
        Ok(Action::Sleep(Span::from_secs(3)))
    );
    assert_eq!(s.step(Event::Woke), Ok(Action::Probe(HOST.to_string())));
    assert_eq!(s.step(Event::Probed(None, at_millis(2))), Ok(Action::Sleep(Span::from_secs(3))));
    // both probes of the cycle are done, though neither gave a data point
    assert_eq!(s.step(Event::Woke), Ok(Action::Sample));
}

#[test]
fn failed_sample_is_published_without_a_rate() {
    let (mut s, _) = start(Span::from_secs(3), None, 0, at_millis(0));
    assert_eq!(
        s.step(Event::Sampled(vec![None, None], Span::from_secs(1), at_millis(1000))),
        Ok(Action::Publish(Datapoint::ThroughputDown(None, at_millis(1000))))
    );
    assert_eq!(s.step(Event::Published(true)), Ok(Action::Sample));
    assert_eq!(
        s.step(Event::Sampled(vec![], Span::from_secs(1), at_millis(2000))),
        Ok(Action::Publish(Datapoint::ThroughputDown(None, at_millis(2000))))
    );
}

#[test]
fn limited_run_reads_the_clock_before_each_cycle() {
    let cap = Some(Span::from_secs(60));
    let (mut s, _) = start(Span::from_secs(1), cap, 1, at_millis(0));
    assert_eq!(s.step(Event::Clock(at_millis(0))), Ok(Action::Probe(HOST.to_string())));
    s.step(Event::Probed(Some(PingResult::Timeout), at_millis(1))).unwrap();
    s.step(Event::Published(true)).unwrap();
    assert_eq!(s.step(Event::Woke), Ok(Action::Sample));
    s.step(Event::Sampled(vec![], Span::zero(), at_millis(2))).unwrap();
    assert_eq!(s.step(Event::Published(true)), Ok(Action::ReadClock));
    assert_eq!(s.phase, Phase::AwaitClock);
}

#[test]
fn limited_run_publishes_nothing_long_after_the_limit() {
    // A cycle takes 10 * (1 + 2) + 10 = 40 ms here, so no data point is taken
    // more than 40 ms after the clock reading that let its cycle begin.
    let cycle_ms: i128 = 40;
    let limit_ms: i128 = 100;
    let started_ms: i128 = 1000;
    let mut world = World::new(usize::MAX);
    world.now_ms = started_ms as u64;
    let start = start(
        Span::from_millis(2),
        Some(Span::from_millis(limit_ms as u64)),
        10,
        at_millis(started_ms as u64),
    );
    let (reason, _) = world.drive(start, 10_000);
    assert_eq!(reason, StopReason::DurationReached);
    assert!(!world.received.is_empty());
    let latest = (started_ms + limit_ms + cycle_ms) * 1_000_000;
    assert!(world.received.iter().all(|dp| dp.timestamp().nanos <= latest));
    // cycles begin at 0, 40 and 80 ms after the start; the check at 120 ms ends the run
    assert_eq!(world.received.len(), 33);
    assert_eq!(world.received.last().unwrap().timestamp(), at_millis(1120));
}

#[test]
fn scheduler_never_hands_out_an_upload() {
    let mut world = World::new(50);
    let start = start(Span::from_millis(1), None, 3, at_millis(0));
    world.drive(start, 10_000);
    assert_eq!(world.received.len(), 50);
    assert!(world.received.iter().all(|dp| !matches!(dp, Datapoint::ThroughputUp(_, _))));
}

#[test]
fn run_is_refused_where_no_probe_can_be_set_up() {
    let refused = Scheduler::start(
        HOST.to_string(),
        Span::from_secs(7),
        None,
        10,
        false,
        at_millis(0),
    );
    assert_eq!(refused, Err(SchedulerError::ProbeUnavailable));
    let limited = Scheduler::start(
        HOST.to_string(),
        Span::from_secs(7),
        Some(Span::from_secs(20)),
        0,
        false,
        at_millis(0),
    );
    assert_eq!(limited, Err(SchedulerError::ProbeUnavailable));
}

#[test]
fn every_probe_goes_to_the_target() {
    let mut world = World::new(40);
    let begun = start(Span::from_millis(1), Some(Span::from_secs(60)), 10, at_millis(0));
    world.drive(begun, 10_000);
    assert!(world.probes > 30);
    assert_eq!(world.probed_hosts.len(), world.probes);
    assert!(world.probed_hosts.iter().all(|host| host == HOST));
}
