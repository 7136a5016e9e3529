//! Lengths of time and points in time, held as whole nanoseconds.

use vstd::prelude::*;

verus! {

/// Nanoseconds in one second.
pub const NANOS_PER_SEC: u128 = 1_000_000_000;

/// Nanoseconds in one millisecond.
pub const NANOS_PER_MILLI: u128 = 1_000_000;

/// A non-negative length of time in whole nanoseconds.
#[derive(Clone, Copy, Debug, PartialEq, Eq, Structural)]
pub struct Span {
    pub nanos: u128,
}

impl Span {
    /// The empty span.
    pub fn zero() -> (s: Span)
        ensures
            s.nanos == 0,
    {
        Span { nanos: 0 }
    }

    /// A span of `secs` whole seconds.
    pub fn from_secs(secs: u64) -> (s: Span)
        ensures
            s.nanos == secs * NANOS_PER_SEC,
    {
        Span { nanos: (secs as u128) * NANOS_PER_SEC }
    }

    /// A span of `millis` whole milliseconds.
    pub fn from_millis(millis: u64) -> (s: Span)
        ensures
            s.nanos == millis * NANOS_PER_MILLI,
    {
        Span { nanos: (millis as u128) * NANOS_PER_MILLI }
    }

    /// A span of `secs` seconds plus `subsec_nanos` nanoseconds. The second
    /// part may itself exceed a second; it is carried over.
    pub fn from_parts(secs: u64, subsec_nanos: u32) -> (s: Span)
        ensures
            s.nanos == secs * NANOS_PER_SEC + subsec_nanos,
    {
        Span { nanos: (secs as u128) * NANOS_PER_SEC + (subsec_nanos as u128) }
    }

    /// The whole seconds in this span.
    pub fn as_secs(&self) -> (secs: u128)
        ensures
            secs == self.nanos / NANOS_PER_SEC,
    {
        self.nanos / NANOS_PER_SEC
    }

    /// The whole milliseconds in this span.
    pub fn as_millis(&self) -> (millis: u128)
        ensures
            millis == self.nanos / NANOS_PER_MILLI,
    {
        self.nanos / NANOS_PER_MILLI
    }

    /// What is left of this span once its whole seconds are taken away.
    pub fn subsec_nanos(&self) -> (rest: u32)
        ensures
            rest == self.nanos % NANOS_PER_SEC,
    {
        (self.nanos % NANOS_PER_SEC) as u32
    }
}

/// A point in time: whole nanoseconds counted from the Unix epoch, negative
/// for points before it.
#[derive(Clone, Copy, Debug, PartialEq, Eq, Structural)]
pub struct Timestamp {
    pub nanos: i128,
}

/// The time from `earlier` to `later` in nanoseconds, where `later` is not
/// before `earlier`.
pub open spec fn gap(earlier: Timestamp, later: Timestamp) -> Option<int> {
    if later.nanos >= earlier.nanos {
        Some(later.nanos - earlier.nanos)
    } else {
        None
    }
}

/// The time from `start` to `now`, counted as nothing where the clock has
/// gone backwards in between.
pub open spec fn elapsed_between(start: Timestamp, now: Timestamp) -> int {
    match gap(start, now) {
        Some(d) => d,
        None => 0,
    }
}

impl Timestamp {
    /// The point `secs` seconds and `subsec_nanos` nanoseconds after the Unix epoch.
    pub fn after_epoch(secs: u64, subsec_nanos: u32) -> (t: Timestamp)
        ensures
            t.nanos == secs * NANOS_PER_SEC + subsec_nanos,
    {
        let whole: u128 = (secs as u128) * NANOS_PER_SEC + (subsec_nanos as u128);
        Timestamp { nanos: whole as i128 }
    }

    /// The point `secs` seconds and `subsec_nanos` nanoseconds before the Unix epoch.
    pub fn before_epoch(secs: u64, subsec_nanos: u32) -> (t: Timestamp)
        ensures
            t.nanos == -(secs * NANOS_PER_SEC + subsec_nanos),
    {
        let whole: u128 = (secs as u128) * NANOS_PER_SEC + (subsec_nanos as u128);
        Timestamp { nanos: -(whole as i128) }
    }

    /// The time that passed from `earlier` to this point, or `None` where
    /// `earlier` is in fact the later of the two.
    pub fn duration_since(&self, earlier: Timestamp) -> (d: Option<Span>)
        ensures
            match gap(earlier, *self) {
                Some(g) => d == Some(Span { nanos: g as u128 }) && g <= u128::MAX,
                None => d is None,
            },
    {
        if self.nanos < earlier.nanos {
            None
        } else if earlier.nanos >= 0 || self.nanos < 0 {
            Some(Span { nanos: (self.nanos - earlier.nanos) as u128 })
        } else {
            // The two lie on opposite sides of the epoch: their distance may
            // exceed what a signed value holds, so it is added up unsigned.
            let below: u128 = (-(earlier.nanos + 1)) as u128;
            Some(Span { nanos: (self.nanos as u128) + below + 1 })
        }
    }

    /// The time that has passed since this point as read at `now`; nothing
    /// where `now` lies before it.
    pub fn elapsed_at(&self, now: Timestamp) -> (d: Span)
        ensures
            d.nanos == elapsed_between(*self, now),
    {
        match now.duration_since(*self) {
            Some(d) => d,
            None => Span::zero(),
        }
    }
}

} // verus!
