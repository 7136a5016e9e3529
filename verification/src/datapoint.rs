//! The record that a measurement publishes.

use vstd::prelude::*;
use crate::time::Span;
use crate::time::Timestamp;
use crate::throughput::Mbit;

verus! {

/// A single data point. Each holds what was measured, or `None` where the
/// measurement failed, and the moment at which that outcome was known.
#[derive(Clone, Copy, Debug, PartialEq, Eq, Structural)]
pub enum Datapoint {
    /// A round trip time; `None` is a timeout.
    Latency(Option<Span>, Timestamp),
    /// An upload rate. Nothing in this library measures one.
    ThroughputUp(Option<Mbit>, Timestamp),
    /// A download rate; `None` is a batch that gave no rate.
    ThroughputDown(Option<Mbit>, Timestamp),
}

/// A recorded session: data points in the order in which they were taken.
pub type MeasurementResult = Vec<Datapoint>;

impl Datapoint {
    /// The moment at which this data point's outcome was known.
    pub open spec fn taken_at(self) -> Timestamp {
        match self {
            Datapoint::Latency(_, t) => t,
            Datapoint::ThroughputUp(_, t) => t,
            Datapoint::ThroughputDown(_, t) => t,
        }
    }

    /// A latency data point taken at `at`.
    pub fn add_latency(latency: Option<Span>, at: Timestamp) -> (dp: Datapoint)
        ensures
            dp == Datapoint::Latency(latency, at),
    {
        Datapoint::Latency(latency, at)
    }

    /// An upload data point taken at `at`.
    pub fn add_tp_up(tp: Option<Mbit>, at: Timestamp) -> (dp: Datapoint)
        ensures
            dp == Datapoint::ThroughputUp(tp, at),
    {
        Datapoint::ThroughputUp(tp, at)
    }

    /// A download data point taken at `at`.
    pub fn add_tp_down(tp: Option<Mbit>, at: Timestamp) -> (dp: Datapoint)
        ensures
            dp == Datapoint::ThroughputDown(tp, at),
    {
        Datapoint::ThroughputDown(tp, at)
    }

    /// The moment at which this data point's outcome was known.
    pub fn timestamp(&self) -> (t: Timestamp)
        ensures
            t == self.taken_at(),
    {
        match self {
            Datapoint::Latency(_, t) => *t,
            Datapoint::ThroughputUp(_, t) => *t,
            Datapoint::ThroughputDown(_, t) => *t,
        }
    }
}

} // verus!
