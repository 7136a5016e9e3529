use linetest::throughput::combined_download;
use linetest::throughput::throughput_sample;
use linetest::throughput::to_mbits;
use linetest::throughput::DownloadResult;
use linetest::throughput::Mbit;
use linetest::throughput::SampleError;
use linetest::time::Span;

#[test]
fn one_megabyte_in_one_second_is_eight_mbit() {
    let rate = to_mbits((Span::from_secs(1), 1_000_000));
    assert_eq!(rate, Some(Mbit { micro: 8_000_000 }));
}

#[test]
fn rate_is_rounded_down_to_the_millionth() {
    // 1 byte in 3 s: 8 bit / 3 s = 2.66.. bit/s
    assert_eq!(to_mbits((Span::from_secs(3), 1)), Some(Mbit { micro: 2 }));
    // 2.5 MB in 0.5 s: 40 Mbit/s
    assert_eq!(to_mbits((Span::from_millis(500), 2_500_000)), Some(Mbit { micro: 40_000_000 }));
}

#[test]
fn no_time_gives_no_rate() {
    assert_eq!(to_mbits((Span::zero(), 1_000_000)), None);
    assert_eq!(to_mbits((Span::zero(), 0)), None);
}

#[test]
fn nothing_received_is_a_rate_of_zero() {
    assert_eq!(to_mbits((Span::from_secs(1), 0)), Some(Mbit { micro: 0 }));
}

#[test]
fn largest_download_in_shortest_time_has_a_rate() {
    let rate = to_mbits((Span { nanos: 1 }, usize::MAX));
    assert_eq!(rate, Some(Mbit { micro: usize::MAX as u128 * 8_000_000_000 }));
}

#[test]
fn empty_url_list_gives_no_sample() {
    let fetches: Vec<Option<DownloadResult>> = vec![];
    assert_eq!(
        combined_download(&fetches, Span::from_secs(1)),
        Err(SampleError::NoSuccessfulFetch)
    );
    assert_eq!(throughput_sample(&fetches, Span::from_secs(1)), None);
    assert_eq!(throughput_sample(&fetches, Span::zero()), None);
}

#[test]
fn one_failure_among_three_fetches() {
    let fetches = vec![
        Some((Span::from_millis(300), 2_000_000)),
        None,
        Some((Span::from_millis(900), 4_000_000)),
    ];
    let completion = Span::from_secs(2);
    assert_eq!(combined_download(&fetches, completion), Ok((completion, 6_000_000)));
    assert_eq!(throughput_sample(&fetches, completion), Some(Mbit { micro: 24_000_000 }));
}

#[test]
fn every_fetch_failed() {
    let fetches: Vec<Option<DownloadResult>> = vec![None, None, None];
    assert_eq!(
        combined_download(&fetches, Span::from_secs(1)),
        Err(SampleError::NoSuccessfulFetch)
    );
    assert_eq!(throughput_sample(&fetches, Span::from_secs(1)), None);
}

#[test]
fn elapsed_is_the_completion_time_not_a_fetch_time() {
    let fetches = vec![Some((Span::from_secs(9), 10))];
    assert_eq!(combined_download(&fetches, Span::from_secs(1)), Ok((Span::from_secs(1), 10)));
}

#[test]
fn successful_fetch_of_nothing_is_a_sample() {
    let fetches = vec![Some((Span::from_secs(1), 0)), None];
    assert_eq!(combined_download(&fetches, Span::from_secs(1)), Ok((Span::from_secs(1), 0)));
    assert_eq!(throughput_sample(&fetches, Span::from_secs(1)), Some(Mbit { micro: 0 }));
}

#[test]
fn total_beyond_what_can_be_counted() {
    let fetches = vec![Some((Span::from_secs(1), usize::MAX)), Some((Span::from_secs(1), 1))];
    assert_eq!(combined_download(&fetches, Span::from_secs(1)), Err(SampleError::TotalTooLarge));
    assert_eq!(throughput_sample(&fetches, Span::from_secs(1)), None);
    let fits = vec![Some((Span::from_secs(1), usize::MAX)), Some((Span::from_secs(1), 0))];
    assert_eq!(combined_download(&fits, Span::from_secs(1)), Ok((Span::from_secs(1), usize::MAX)));
}

#[test]
fn batch_that_took_no_time_has_no_rate() {
    let fetches = vec![Some((Span::zero(), 100))];
    assert_eq!(combined_download(&fetches, Span::zero()), Ok((Span::zero(), 100)));
    assert_eq!(throughput_sample(&fetches, Span::zero()), None);
}
