//! Statistics over a recorded session.

use vstd::prelude::*;
use vstd::arithmetic::div_mod::lemma_fundamental_div_mod_converse;
use vstd::arithmetic::mul::lemma_mul_inequality;
use vstd::arithmetic::mul::lemma_mul_is_distributive_add_other_way;
use vstd::arithmetic::div_mod::lemma_fundamental_div_mod;
use crate::datapoint::Datapoint;
use crate::datapoint::MeasurementResult;
use crate::throughput::Mbit;
use crate::time::Span;
use crate::time::elapsed_between;

verus! {

/// The two quantities that a session is averaged over.
#[derive(Clone, Copy, Debug, PartialEq, Eq, Structural)]
pub enum Quantity {
    /// Round trip times, in nanoseconds.
    Latency,
    /// Download rates, in millionths of a Mbit/s.
    Download,
}

/// A share of a whole, kept as the two counts it is made of.
#[derive(Clone, Copy, Debug, PartialEq, Eq, Structural)]
pub struct Ratio {
    pub part: usize,
    pub whole: usize,
}

/// Why a stored session could not be brought into memory.
#[derive(Clone, Copy, Debug, PartialEq, Eq, Structural)]
pub enum LoadError {
    /// The store could not be opened or read.
    Unreadable,
    /// What was read is not a session.
    Malformed,
}

/// What `dp` contributes to the mean of `q`: its value where it is a
/// successful measurement of that quantity, else nothing.
pub open spec fn reading(dp: Datapoint, q: Quantity) -> Option<u128> {
    match (dp, q) {
        (Datapoint::Latency(Some(d), _), Quantity::Latency) => Some(d.nanos),
        (Datapoint::ThroughputDown(Some(r), _), Quantity::Download) => Some(r.micro),
        _ => None,
    }
}

/// The sum of the readings of `q` in `s`.
pub open spec fn reading_sum(s: Seq<Datapoint>, q: Quantity) -> nat
    decreases s.len(),
{
    if s.len() == 0 {
        0
    } else {
        reading_sum(s.drop_last(), q) + match reading(s.last(), q) {
            Some(v) => v as nat,
            None => 0,
        }
    }
}

/// The number of readings of `q` in `s`.
pub open spec fn reading_count(s: Seq<Datapoint>, q: Quantity) -> nat
    decreases s.len(),
{
    if s.len() == 0 {
        0
    } else {
        reading_count(s.drop_last(), q) + if reading(s.last(), q) is Some {
            1nat
        } else {
            0nat
        }
    }
}

/// The arithmetic mean, rounded down, of the readings of `q` in `s`.
/// Failed measurements count neither in the sum nor in the divisor, and a
/// session without any reading has no mean.
pub open spec fn mean_reading(s: Seq<Datapoint>, q: Quantity) -> Option<nat> {
    if reading_count(s, q) == 0 {
        None
    } else {
        Some(reading_sum(s, q) / reading_count(s, q))
    }
}

/// The mean round trip time of a session.
pub open spec fn mean_latency_of(s: Seq<Datapoint>) -> Option<Span> {
    match mean_reading(s, Quantity::Latency) {
        Some(m) => Some(Span { nanos: m as u128 }),
        None => None,
    }
}

/// The mean download rate of a session.
pub open spec fn mean_download_of(s: Seq<Datapoint>) -> Option<Mbit> {
    match mean_reading(s, Quantity::Download) {
        Some(m) => Some(Mbit { micro: m as u128 }),
        None => None,
    }
}

/// Whether `dp` is a latency probe that timed out.
pub open spec fn is_timeout(dp: Datapoint) -> bool {
    dp matches Datapoint::Latency(None, _)
}

/// The number of timed-out latency probes in `s`.
pub open spec fn timeout_count(s: Seq<Datapoint>) -> nat
    decreases s.len(),
{
    if s.len() == 0 {
        0
    } else {
        timeout_count(s.drop_last()) + if is_timeout(s.last()) {
            1nat
        } else {
            0nat
        }
    }
}

/// The timeouts of a session as a share of all its entries, of whatever
/// kind. An empty session has no such share.
pub open spec fn timeout_ratio_of(s: Seq<Datapoint>) -> Option<Ratio> {
    if s.len() == 0 {
        None
    } else {
        Some(Ratio { part: timeout_count(s) as usize, whole: s.len() as usize })
    }
}

/// The time from the first entry of a session to its last, in nanoseconds;
/// nothing for an empty session or where the last entry is stamped earlier
/// than the first.
pub open spec fn session_span(s: Seq<Datapoint>) -> int {
    if s.len() == 0 {
        0
    } else {
        elapsed_between(s.first().taken_at(), s.last().taken_at())
    }
}

/// The readings in a prefix are among those of a longer prefix.
proof fn lemma_count_prefix(s: Seq<Datapoint>, q: Quantity, i: int, j: int)
    requires
        0 <= i <= j <= s.len(),
    ensures
        reading_count(s.take(i), q) <= reading_count(s.take(j), q),
    decreases j - i,
{
    if i < j {
        lemma_count_prefix(s, q, i, j - 1);
        assert(s.take(j).drop_last() =~= s.take(j - 1));
    }
}

/// Each reading is a `u128`, so their sum is at most that many times its
/// largest value.
proof fn lemma_sum_bound(s: Seq<Datapoint>, q: Quantity)
    ensures
        reading_sum(s, q) <= reading_count(s, q) * u128::MAX,
        reading_count(s, q) <= s.len(),
    decreases s.len(),
{
    if s.len() > 0 {
        lemma_sum_bound(s.drop_last(), q);
        let c = reading_count(s.drop_last(), q);
        assert(c * u128::MAX + u128::MAX == (c + 1) * u128::MAX) by (nonlinear_arith);
    }
}

/// A quotient is no larger than the bound that the dividend stays under.
proof fn lemma_quotient_bound(a: int, c: int, bound: int)
    requires
        0 < c,
        0 <= a,
        a * c <= c * bound,
    ensures
        a <= bound,
{
    if a > bound {
        lemma_mul_inequality(bound + 1, a, c);
        assert((bound + 1) * c == bound * c + c) by (nonlinear_arith);
        assert(bound * c == c * bound) by (nonlinear_arith);
    }
}

/// The reading of `q` that `dp` holds, if any.
fn read(dp: &Datapoint, q: Quantity) -> (v: Option<u128>)
    ensures
        v == reading(*dp, q),
{
    match (dp, q) {
        (Datapoint::Latency(Some(d), _), Quantity::Latency) => Some(d.nanos),
        (Datapoint::ThroughputDown(Some(r), _), Quantity::Download) => Some(r.micro),
        _ => None,
    }
}

/// How many readings of `q` the session holds.
fn count_readings(session: &Vec<Datapoint>, q: Quantity) -> (n: usize)
    ensures
        n == reading_count(session@, q),
{
    let mut n: usize = 0;
    let mut i: usize = 0;
    while i < session.len()
        invariant
            i <= session.len(),
            n == reading_count(session@.take(i as int), q),
            n <= i,
        decreases session.len() - i,
    {
        proof {
            assert(session@.take(i + 1).drop_last() =~= session@.take(i as int));
        }
        if read(&session[i], q).is_some() {
            n = n + 1;
        }
        i = i + 1;
    }
    proof {
        assert(session@.take(session@.len() as int) =~= session@);
    }
    n
}

/// The mean of the readings of `q` in a session. The sum itself may be too
/// large to hold, so the mean is carried along as quotient and remainder of
/// the running sum by the number of readings.
pub fn mean_of(session: &Vec<Datapoint>, q: Quantity) -> (m: Option<u128>)
    ensures
        match mean_reading(session@, q) {
            Some(v) => m == Some(v as u128) && v <= u128::MAX,
            None => m is None,
        },
{
    let count: usize = count_readings(session, q);
    if count == 0 {
        return None;
    }
    let c: u128 = count as u128;
    let mut quot: u128 = 0;
    let mut rem: u128 = 0;
    let mut i: usize = 0;
    while i < session.len()
        invariant
            i <= session.len(),
            c == reading_count(session@, q),
            0 < c <= usize::MAX,
            quot * c + rem == reading_sum(session@.take(i as int), q),
            rem < c,
        decreases session.len() - i,
    {
        let ghost before = session@.take(i as int);
        let ghost after = session@.take(i + 1);
        proof {
            assert(after.drop_last() =~= before);
            lemma_sum_bound(after, q);
            lemma_count_prefix(session@, q, i + 1, session@.len() as int);
            assert(session@.take(session@.len() as int) =~= session@);
            lemma_mul_inequality(reading_count(after, q) as int, c as int, u128::MAX as int);
            assert(c * u128::MAX == u128::MAX * c) by (nonlinear_arith);
            assert(reading_count(after, q) * u128::MAX == u128::MAX * reading_count(after, q))
                by (nonlinear_arith);
        }
        match read(&session[i], q) {
            Some(v) => {
                let dq: u128 = v / c;
                let dr: u128 = v % c;
                proof {
                    lemma_fundamental_div_mod(v as int, c as int);
                    // (quot + dq) * c + (rem + dr) is the sum with v added
                    lemma_mul_is_distributive_add_other_way(c as int, quot as int, dq as int);
                    assert(c * dq == dq * c) by (nonlinear_arith);
                    assert((quot + dq) * c + (rem + dr) == reading_sum(after, q));
                    assert((quot + dq) * c <= c * u128::MAX);
                    lemma_quotient_bound(quot + dq, c as int, u128::MAX as int);
                }
                quot = quot + dq;
                rem = rem + dr;
                if rem >= c {
                    proof {
                        assert((quot + 1) * c == quot * c + c) by (nonlinear_arith);
                        assert((quot + 1) * c <= c * u128::MAX);
                        lemma_quotient_bound(quot + 1, c as int, u128::MAX as int);
                    }
                    quot = quot + 1;
                    rem = rem - c;
                }
            },
            None => {},
        }
        i = i + 1;
    }
    proof {
        assert(session@.take(session@.len() as int) =~= session@);
        assert(quot * c == c * quot) by (nonlinear_arith);
        lemma_fundamental_div_mod_converse(
            reading_sum(session@, q) as int,
            c as int,
            quot as int,
            rem as int,
        );
    }
    Some(quot)
}

/// A session never holds more timeouts than entries.
pub proof fn lemma_timeouts_bounded(s: Seq<Datapoint>)
    ensures
        timeout_count(s) <= s.len(),
    decreases s.len(),
{
    if s.len() > 0 {
        lemma_timeouts_bounded(s.drop_last());
    }
}

/// The share of timeouts in a session that is not empty lies between
/// nothing and the whole.
pub proof fn lemma_timeout_ratio_in_unit_interval(s: Seq<Datapoint>)
    requires
        0 < s.len() <= usize::MAX,
    ensures
        timeout_ratio_of(s) matches Some(r) && 0 <= r.part <= r.whole && 0 < r.whole
            && r.part == timeout_count(s) && r.whole == s.len(),
{
    lemma_timeouts_bounded(s);
}

/// A session has a mean latency exactly if one of its probes was answered.
pub proof fn lemma_mean_latency_needs_an_answer(s: Seq<Datapoint>)
    ensures
        mean_latency_of(s) is Some <==> exists|i: int|
            0 <= i < s.len() && reading(#[trigger] s[i], Quantity::Latency) is Some,
    decreases s.len(),
{
    if s.len() > 0 {
        let front = s.drop_last();
        lemma_mean_latency_needs_an_answer(front);
        if reading_count(front, Quantity::Latency) > 0 {
            let i = choose|i: int|
                0 <= i < front.len() && reading(#[trigger] front[i], Quantity::Latency) is Some;
            assert(reading(s[i], Quantity::Latency) is Some);
        } else if reading(s.last(), Quantity::Latency) is Some {
            assert(reading(s[s.len() - 1], Quantity::Latency) is Some);
        } else {
            assert forall|i: int| 0 <= i < s.len() implies !(reading(
                #[trigger] s[i],
                Quantity::Latency,
            ) is Some) by {
                if i < front.len() {
                    assert(front[i] == s[i]);
                }
            }
        }
    }
}

/// Over nothing but timeouts the mean latency is undefined, not zero.
pub proof fn lemma_only_timeouts_have_no_mean_latency(s: Seq<Datapoint>)
    requires
        forall|i: int| 0 <= i < s.len() ==> is_timeout(#[trigger] s[i]),
    ensures
        mean_latency_of(s) is None,
{
    lemma_mean_latency_needs_an_answer(s);
}

/// A couple of analysis methods on a recorded session.
pub trait Evaluation {
    /// The data points that the methods speak of, in order.
    spec fn samples(&self) -> Seq<Datapoint>;

    /// Mean download rate over the download samples that gave a rate;
    /// `None` where there is none.
    fn mean_dl(&self) -> (m: Option<Mbit>)
        ensures
            m == mean_download_of(self.samples()),
            m is None <==> reading_count(self.samples(), Quantity::Download) == 0,
    ;

    /// Mean round trip time over the probes that were answered; `None`
    /// where there is none.
    fn mean_latency(&self) -> (m: Option<Span>)
        ensures
            m == mean_latency_of(self.samples()),
            m is None <==> reading_count(self.samples(), Quantity::Latency) == 0,
    ;

    /// Number of probes that timed out.
    fn timeouts(&self) -> (n: usize)
        ensures
            n == timeout_count(self.samples()),
            n <= self.samples().len(),
    ;

    /// Share of timeouts among all entries of the session, where 0 of the
    /// whole is perfect availability and all of it complete loss; `None`
    /// for an empty session.
    fn timeouts_for_session(&self) -> (r: Option<Ratio>)
        ensures
            r == timeout_ratio_of(self.samples()),
            r matches Some(ratio) ==> ratio.part <= ratio.whole && ratio.whole > 0,
            r is None <==> self.samples().len() == 0,
    ;

    /// Replaces the session by one read from a store, or leaves it as it is
    /// and hands the error on where reading failed.
    fn load(&mut self, stored: Result<MeasurementResult, LoadError>) -> (res: Result<(), LoadError>)
        ensures
            match stored {
                Ok(session) => res is Ok && final(self).samples() == session@,
                Err(e) => res == Err::<(), LoadError>(e) && final(self).samples() == old(
                    self,
                ).samples(),
            },
    ;

    /// Time from the first sample of the session to the last.
    fn duration(&self) -> (d: Span)
        ensures
            d.nanos == session_span(self.samples()),
    ;
}

impl Evaluation for MeasurementResult {
    open spec fn samples(&self) -> Seq<Datapoint> {
        self@
    }

    fn mean_dl(&self) -> (m: Option<Mbit>) {
        match mean_of(self, Quantity::Download) {
            Some(micro) => Some(Mbit { micro }),
            None => None,
        }
    }

    fn mean_latency(&self) -> (m: Option<Span>) {
        match mean_of(self, Quantity::Latency) {
            Some(nanos) => Some(Span { nanos }),
            None => None,
        }
    }

    fn timeouts(&self) -> (n: usize) {
        let mut n: usize = 0;
        let mut i: usize = 0;
        while i < self.len()
            invariant
                i <= self.len(),
                n == timeout_count(self@.take(i as int)),
                n <= i,
            decreases self.len() - i,
        {
            proof {
                assert(self@.take(i + 1).drop_last() =~= self@.take(i as int));
            }
            match self[i] {
                Datapoint::Latency(None, _) => {
                    n = n + 1;
                },
                _ => {},
            }
            i = i + 1;
        }
        proof {
            assert(self@.take(self@.len() as int) =~= self@);
        }
        n
    }

    fn timeouts_for_session(&self) -> (r: Option<Ratio>) {
        if self.len() == 0 {
            None
        } else {
            Some(Ratio { part: self.timeouts(), whole: self.len() })
        }
    }

    fn load(&mut self, stored: Result<MeasurementResult, LoadError>) -> (res: Result<
        (),
        LoadError,
    >) {
        match stored {
            Ok(session) => {
                *self = session;
                Ok(())
            },
            Err(e) => Err(e),
        }
    }

    fn duration(&self) -> (d: Span) {
        if self.len() == 0 {
            Span::zero()
        } else {
            let first = self[0].timestamp();
            let last = self[self.len() - 1].timestamp();
            first.elapsed_at(last)
        }
    }
}

} // verus!
