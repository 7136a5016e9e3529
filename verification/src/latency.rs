//! Latency probes: what a single answer of the probing facility means.

use vstd::prelude::*;
use crate::time::Span;

verus! {

/// One message of the facility that sends the probes.
#[derive(Clone, Copy, Debug, PartialEq, Eq, Structural)]
pub enum PingResult {
    /// The host answered after the given time.
    Pong(Span),
    /// The host did not answer in time.
    Timeout,
    /// Output that is neither of the two.
    Unknown,
    /// The facility has shut down.
    PingExited,
}

/// What a probe's first message amounts to: `Some` with the round trip time,
/// or with `None` for a timeout, where the message is a measurement, and
/// `None` where there is nothing to record.
pub open spec fn probe_sample(message: Option<PingResult>) -> Option<Option<Span>> {
    match message {
        Some(PingResult::Pong(d)) => Some(Some(d)),
        Some(PingResult::Timeout) => Some(None),
        _ => None,
    }
}

/// Reads off the first message of a probe what is to be recorded for it.
/// Unknown output is ignored, as is a probe that said nothing at all.
pub fn ping_callback(message: Option<PingResult>) -> (sample: Option<Option<Span>>)
    ensures
        sample == probe_sample(message),
{
    match message {
        Some(PingResult::Pong(duration)) => Some(Some(duration)),
        Some(PingResult::Timeout) => Some(None),
        Some(PingResult::Unknown) => None,
        Some(PingResult::PingExited) => None,
        None => None,
    }
}

} // verus!
