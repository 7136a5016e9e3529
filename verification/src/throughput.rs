//! Download throughput: how the fetches of one batch are combined into a
//! single amount of data and a single bit rate.

use vstd::prelude::*;
use crate::time::Span;
use crate::time::NANOS_PER_SEC;

verus! {

/// An amount of received data in bytes.
pub type Bytes = usize;

/// What a download took and how many bytes it brought.
pub type DownloadResult = (Span, Bytes);

/// A bit rate in Mbit/s, held as a fixed-point number with six decimal
/// places: `micro` counts millionths of a Mbit/s, which are bits per second.
#[derive(Clone, Copy, Debug, PartialEq, Eq, Structural)]
pub struct Mbit {
    pub micro: u128,
}

/// Why a batch of downloads gave no result.
#[derive(Clone, Copy, Debug, PartialEq, Eq, Structural)]
pub enum SampleError {
    /// No fetch of the batch succeeded; an empty batch is such a batch.
    NoSuccessfulFetch,
    /// The fetches brought more bytes together than `Bytes` can count.
    TotalTooLarge,
}

/// The bit rate, in millionths of a Mbit/s rounded down, of `bytes` bytes
/// received within `elapsed_nanos` nanoseconds. No time at all gives no rate.
pub open spec fn rate_of(elapsed_nanos: nat, bytes: nat) -> Option<nat> {
    if elapsed_nanos == 0 {
        None
    } else {
        Some((bytes * 8 * NANOS_PER_SEC as nat) / elapsed_nanos)
    }
}

/// The bit rate of a download as a value of the library.
pub open spec fn mbits_of(dr: DownloadResult) -> Option<Mbit> {
    match rate_of(dr.0.nanos as nat, dr.1 as nat) {
        Some(r) => Some(Mbit { micro: r as u128 }),
        None => None,
    }
}

/// The bytes that the successful fetches among `fetches` brought together.
pub open spec fn fetched_total(fetches: Seq<Option<DownloadResult>>) -> nat
    decreases fetches.len(),
{
    if fetches.len() == 0 {
        0
    } else {
        fetched_total(fetches.drop_last()) + match fetches.last() {
            Some(dr) => dr.1 as nat,
            None => 0,
        }
    }
}

/// How many of `fetches` succeeded.
pub open spec fn fetched_count(fetches: Seq<Option<DownloadResult>>) -> nat
    decreases fetches.len(),
{
    if fetches.len() == 0 {
        0
    } else {
        fetched_count(fetches.drop_last()) + if fetches.last() is Some {
            1nat
        } else {
            0nat
        }
    }
}

/// What a batch of fetches that completed after `completion_time` amounts to.
pub open spec fn combined(fetches: Seq<Option<DownloadResult>>, completion_time: Span) -> Result<
    DownloadResult,
    SampleError,
> {
    if fetched_count(fetches) == 0 {
        Err(SampleError::NoSuccessfulFetch)
    } else if fetched_total(fetches) > usize::MAX {
        Err(SampleError::TotalTooLarge)
    } else {
        Ok((completion_time, fetched_total(fetches) as usize))
    }
}

/// The bit rate that a batch of fetches is recorded with, if any.
pub open spec fn sample_rate(fetches: Seq<Option<DownloadResult>>, completion_time: Span) -> Option<
    Mbit,
> {
    match combined(fetches, completion_time) {
        Ok(dr) => mbits_of(dr),
        Err(_) => None,
    }
}

/// The bit rate of a finished download, `None` where it took no time.
pub fn to_mbits(dr: DownloadResult) -> (rate: Option<Mbit>)
    ensures
        rate == mbits_of(dr),
        dr.0.nanos > 0 ==> rate is Some,
{
    let (duration, bytes) = dr;
    if duration.nanos == 0 {
        return None;
    }
    let bits_scaled: u128 = (bytes as u128) * 8 * NANOS_PER_SEC;
    Some(Mbit { micro: bits_scaled / duration.nanos })
}

/// Combines the fetches of one batch, each `Some` with what it took and
/// brought or `None` where it failed, into the bytes received in all and the
/// time until the last of them was done. A failed fetch adds nothing and does
/// not spoil the rest; a batch without any success is an error.
pub fn combined_download(fetches: &Vec<Option<DownloadResult>>, completion_time: Span) -> (res:
    Result<DownloadResult, SampleError>)
    ensures
        res == combined(fetches@, completion_time),
        fetches@.len() == 0 ==> res == Err::<DownloadResult, SampleError>(
            SampleError::NoSuccessfulFetch,
        ),
{
    let mut total: u128 = 0;
    let mut any: bool = false;
    let mut i: usize = 0;
    while i < fetches.len()
        invariant
            i <= fetches.len(),
            total == fetched_total(fetches@.take(i as int)),
            any == (fetched_count(fetches@.take(i as int)) > 0),
            total <= i * usize::MAX,
        decreases fetches.len() - i,
    {
        proof {
            assert(fetches@.take(i + 1).drop_last() =~= fetches@.take(i as int));
            assert(i * usize::MAX + usize::MAX == (i + 1) * usize::MAX) by (nonlinear_arith);
            assert((i + 1) * usize::MAX <= usize::MAX * usize::MAX) by (nonlinear_arith)
                requires
                    i + 1 <= usize::MAX,
            ;
        }
        match fetches[i] {
            Some(dr) => {
                total = total + (dr.1 as u128);
                any = true;
            },
            None => {},
        }
        i = i + 1;
    }
    proof {
        assert(fetches@.take(fetches@.len() as int) =~= fetches@);
    }
    if !any {
        Err(SampleError::NoSuccessfulFetch)
    } else if total > (usize::MAX as u128) {
        Err(SampleError::TotalTooLarge)
    } else {
        Ok((completion_time, total as usize))
    }
}

/// The bit rate to record for one batch of fetches: that of the combined
/// download, or `None` where the batch failed or took no time.
pub fn throughput_sample(fetches: &Vec<Option<DownloadResult>>, completion_time: Span) -> (rate:
    Option<Mbit>)
    ensures
        rate == sample_rate(fetches@, completion_time),
{
    match combined_download(fetches, completion_time) {
        Ok(dr) => to_mbits(dr),
        Err(_) => None,
    }
}

/// A batch without fetches has no bit rate, whatever time it is said to
/// have taken.
pub proof fn lemma_empty_batch_has_no_rate(completion_time: Span)
    ensures
        sample_rate(Seq::<Option<DownloadResult>>::empty(), completion_time) is None,
{
}

/// A batch in which every fetch failed has no bit rate.
pub proof fn lemma_failed_batch_has_no_rate(
    fetches: Seq<Option<DownloadResult>>,
    completion_time: Span,
)
    requires
        forall|i: int| 0 <= i < fetches.len() ==> fetches[i] is None,
    ensures
        fetched_count(fetches) == 0,
        sample_rate(fetches, completion_time) is None,
    decreases fetches.len(),
{
    if fetches.len() > 0 {
        lemma_failed_batch_has_no_rate(fetches.drop_last(), completion_time);
    }
}

/// A batch that took no time has no bit rate: nothing is divided by zero.
pub proof fn lemma_instant_batch_has_no_rate(fetches: Seq<Option<DownloadResult>>)
    ensures
        sample_rate(fetches, Span { nanos: 0 }) is None,
{
}

} // verus!
