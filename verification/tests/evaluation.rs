use linetest::eval::LoadError;
use linetest::eval::Quantity;
use linetest::eval::Ratio;
use linetest::eval::mean_of;
use linetest::throughput::Mbit;
use linetest::time::Span;
use linetest::time::Timestamp;
use linetest::Datapoint;
use linetest::Evaluation;
use linetest::MeasurementResult;

fn at(secs: u64) -> Timestamp {
    Timestamp::after_epoch(secs, 0)
}

fn ping(millis: u64, secs: u64) -> Datapoint {
    Datapoint::add_latency(Some(Span::from_millis(millis)), at(secs))
}

fn timeout(secs: u64) -> Datapoint {
    Datapoint::add_latency(None, at(secs))
}

fn down(micro: u128, secs: u64) -> Datapoint {
    Datapoint::add_tp_down(Some(Mbit { micro }), at(secs))
}

fn session() -> MeasurementResult {
    vec![
        ping(10, 1),
        timeout(2),
        ping(20, 3),
        down(30_000_000, 4),
        Datapoint::add_tp_down(None, at(5)),
        ping(33, 6),
        down(50_000_001, 7),
        Datapoint::add_tp_up(Some(Mbit { micro: 999 }), at(8)),
    ]
}

#[test]
fn constructors_keep_value_and_time() {
    let t = at(5);
    let d = Span::from_millis(3);
    assert_eq!(Datapoint::add_latency(Some(d), t), Datapoint::Latency(Some(d), t));
    assert_eq!(Datapoint::add_latency(None, t), Datapoint::Latency(None, t));
    let m = Mbit { micro: 42 };
    assert_eq!(Datapoint::add_tp_up(Some(m), t), Datapoint::ThroughputUp(Some(m), t));
    assert_eq!(Datapoint::add_tp_down(Some(m), t), Datapoint::ThroughputDown(Some(m), t));
    assert_eq!(Datapoint::add_tp_down(None, t).timestamp(), t);
    assert_eq!(Datapoint::add_tp_up(None, t).timestamp(), t);
    assert_eq!(Datapoint::add_latency(None, t).timestamp(), t);
}

#[test]
fn mean_latency_leaves_timeouts_out() {
    // (10 + 20 + 33) ms / 3 = 21 ms
    assert_eq!(session().mean_latency(), Some(Span::from_millis(21)));
}

#[test]
fn mean_latency_is_rounded_down() {
    let s: MeasurementResult = vec![
        Datapoint::add_latency(Some(Span { nanos: 1 }), at(1)),
        Datapoint::add_latency(Some(Span { nanos: 2 }), at(2)),
    ];
    assert_eq!(s.mean_latency(), Some(Span { nanos: 1 }));
}

#[test]
fn mean_latency_over_timeouts_only_is_undefined() {
    let s: MeasurementResult = vec![timeout(1), timeout(2), timeout(3)];
    assert_eq!(s.mean_latency(), None);
    let empty: MeasurementResult = vec![];
    assert_eq!(empty.mean_latency(), None);
    let downloads: MeasurementResult = vec![down(5, 1)];
    assert_eq!(downloads.mean_latency(), None);
}

#[test]
fn mean_download_leaves_failed_samples_out() {
    // (30.000000 + 50.000001) / 2 = 40.0000005, rounded down
    assert_eq!(session().mean_dl(), Some(Mbit { micro: 40_000_000 }));
}

#[test]
fn mean_download_without_samples_is_undefined() {
    let s: MeasurementResult = vec![ping(10, 1), Datapoint::add_tp_down(None, at(2))];
    assert_eq!(s.mean_dl(), None);
    let uploads: MeasurementResult = vec![Datapoint::add_tp_up(Some(Mbit { micro: 7 }), at(1))];
    assert_eq!(uploads.mean_dl(), None);
}

#[test]
fn mean_of_the_largest_values_does_not_overflow() {
    let s: MeasurementResult = vec![
        down(u128::MAX, 1),
        down(u128::MAX, 2),
        down(u128::MAX - 3, 3),
    ];
    assert_eq!(s.mean_dl(), Some(Mbit { micro: u128::MAX - 1 }));
    assert_eq!(mean_of(&s, Quantity::Download), Some(u128::MAX - 1));
    assert_eq!(mean_of(&s, Quantity::Latency), None);
}

#[test]
fn timeouts_are_counted() {
    assert_eq!(session().timeouts(), 1);
    let s: MeasurementResult = vec![timeout(1), ping(5, 2), timeout(3)];
    assert_eq!(s.timeouts(), 2);
    let failed_download: MeasurementResult = vec![Datapoint::add_tp_down(None, at(1))];
    assert_eq!(failed_download.timeouts(), 0);
}

#[test]
fn timeout_count_is_at_most_the_number_of_entries() {
    let s: MeasurementResult = vec![timeout(1), timeout(2)];
    assert!(s.timeouts() <= s.len());
    assert!(session().timeouts() <= session().len());
}

#[test]
fn timeout_share_is_taken_of_all_entries() {
    assert_eq!(session().timeouts_for_session(), Some(Ratio { part: 1, whole: 8 }));
    let all: MeasurementResult = vec![timeout(1), timeout(2)];
    assert_eq!(all.timeouts_for_session(), Some(Ratio { part: 2, whole: 2 }));
    let none: MeasurementResult = vec![ping(1, 1), down(1, 2)];
    assert_eq!(none.timeouts_for_session(), Some(Ratio { part: 0, whole: 2 }));
}

#[test]
fn timeout_share_of_an_empty_session_is_undefined() {
    let empty: MeasurementResult = vec![];
    assert_eq!(empty.timeouts_for_session(), None);
    assert_eq!(empty.timeouts(), 0);
}

#[test]
fn duration_spans_first_to_last() {
    assert_eq!(session().duration(), Span::from_secs(7));
}

#[test]
fn duration_of_short_sessions_is_zero() {
    let empty: MeasurementResult = vec![];
    assert_eq!(empty.duration(), Span::zero());
    let single: MeasurementResult = vec![ping(10, 5)];
    assert_eq!(single.duration(), Span::zero());
}

#[test]
fn duration_of_an_inconsistent_session_is_zero() {
    let s: MeasurementResult = vec![ping(10, 9), ping(10, 20), ping(10, 3)];
    assert_eq!(s.duration(), Span::zero());
}

#[test]
fn load_replaces_the_session() {
    let mut s = session();
    let stored: MeasurementResult = vec![timeout(1)];
    assert_eq!(s.load(Ok(stored)), Ok(()));
    assert_eq!(s, vec![timeout(1)]);
    assert_eq!(s.load(Ok(vec![])), Ok(()));
    assert!(s.is_empty());
}

#[test]
fn failed_load_leaves_the_session_as_it_was() {
    let mut s = session();
    assert_eq!(s.load(Err(LoadError::Unreadable)), Err(LoadError::Unreadable));
    assert_eq!(s, session());
    assert_eq!(s.load(Err(LoadError::Malformed)), Err(LoadError::Malformed));
    assert_eq!(s, session());
}
