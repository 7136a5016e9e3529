//! Setting up a measurement.

use vstd::prelude::*;
use crate::datapoint::Datapoint;
use crate::datapoint::MeasurementResult;
use crate::latency::PingResult;
use crate::latency::ping_callback;
use crate::latency::probe_sample;
use crate::logname::is_minute;
use crate::logname::log_file_name_now;
use crate::logname::log_name;
use crate::logname::CalendarStamp;
use crate::scheduler::lemma_probes_go_to_the_target;
use crate::scheduler::Action;
use crate::scheduler::Event;
use crate::scheduler::Scheduler;
use crate::scheduler::SchedulerError;
use crate::scheduler::LATENCY_DOWNLOAD_RATIO;
use crate::throughput::DownloadResult;
use crate::throughput::sample_rate;
use crate::throughput::throughput_sample;
use crate::time::Span;
use crate::time::Timestamp;
use crate::time::NANOS_PER_SEC;

verus! {

/// The path that `std::path::Path::join` makes of the path `base` and the
/// path `name`, each written as text, by the path rules of the platform
/// that the library is built for.
pub uninterp spec fn joined_path(base: Seq<char>, name: Seq<char>) -> Seq<char>;

/// `dirs::data_local_dir`: the user's directory for local data, if the
/// system names one, written as text. Trusted: nothing is claimed of the
/// result. A path that is not Unicode throughout is written with
/// replacement characters.
#[verifier::external_body]
fn local_data_dir() -> Option<String> {
    match dirs::data_local_dir() {
        Some(dir) => Some(dir.to_string_lossy().into_owned()),
        None => None,
    }
}

/// `std::path::Path::join`: the path `name` adjoined to the path `base`.
/// Trusted: the result is what joining makes of the two paths and of
/// nothing else.
#[verifier::external_body]
fn join_path(base: &str, name: &str) -> (path: String)
    ensures
        path@ == joined_path(base@, name@),
{
    std::path::Path::new(base).join(name).to_string_lossy().into_owned()
}

/// The text of a path, where there is one.
pub open spec fn text_of(path: Option<String>) -> Option<Seq<char>> {
    match path {
        Some(text) => Some(text@),
        None => None,
    }
}

/// The directory for measurement results: `linetest` below `base`, the
/// user's directory for local data, or below the current directory where
/// there is no such directory.
pub open spec fn data_dir_of(base: Option<Seq<char>>) -> Seq<char> {
    joined_path(
        match base {
            Some(dir) => dir,
            None => "."@,
        },
        "linetest"@,
    )
}

/// The log file of a builder made at the minute `stamp` where the user's
/// directory for local data is `base`: the file named after the minute in
/// the directory for measurement results.
pub open spec fn default_logfile_of(base: Option<Seq<char>>, stamp: CalendarStamp) -> Seq<char> {
    joined_path(data_dir_of(base), log_name(stamp))
}

/// The host that is probed where none is configured.
pub open spec fn fallback_ping_ip() -> Seq<char> {
    "8.8.8.8"@
}

/// The downloads of a builder made with [`MeasurementBuilder::new`].
pub open spec fn default_download_urls() -> Seq<Seq<char>> {
    seq![
        "https://github.com/aseprite/aseprite/releases/download/v1.2.27/Aseprite-v1.2.27-Source.zip"@,
        "https://dl.google.com/drive-file-stream/GoogleDriveSetup.exe"@,
        "https://awscli.amazonaws.com/AWSCLIV2.msi"@,
        "https://awscli.amazonaws.com/awscli-exe-linux-x86_64.zip"@,
    ]
}

/// The downloads that [`MeasurementBuilder::with_aws_payload`] sets.
pub open spec fn aws_payload_urls() -> Seq<Seq<char>> {
    seq![
        "https://d1dgjrknbc1uuw.cloudfront.net/2M"@,
        "https://d1dgjrknbc1uuw.cloudfront.net/1M"@,
        "https://d1dgjrknbc1uuw.cloudfront.net/4M"@,
    ]
}

/// The seconds between two probes of a builder made with
/// [`MeasurementBuilder::new`].
pub const DEFAULT_PING_DELAY_SECS: u64 = 7;

/// A structure to set up and start a network measurement.
#[derive(Debug, Clone)]
pub struct MeasurementBuilder {
    /// The addresses to use for latency tests. Only the first one is used.
    pub ping_ips: Vec<String>,
    /// The URLs of files to download. The speed is evaluated by downloading
    /// all of them in parallel and measuring the time.
    pub downloads_urls: Vec<String>,
    /// The delay between pings.
    pub ping_delay: Span,
    /// The path to a logfile. Will be used if not `None`.
    pub logfile: Option<String>,
}

/// What one pass of probing once and sampling once records: the latency
/// data point, unless the probe said nothing that can be recorded, and then
/// the download data point.
pub open spec fn once_recorded(
    message: Option<PingResult>,
    probed_at: Timestamp,
    fetches: Seq<Option<DownloadResult>>,
    completion_time: Span,
    sampled_at: Timestamp,
) -> Seq<Datapoint> {
    let download = Datapoint::ThroughputDown(sample_rate(fetches, completion_time), sampled_at);
    match probe_sample(message) {
        Some(latency) => seq![Datapoint::Latency(latency, probed_at), download],
        None => seq![download],
    }
}

/// A copy of `texts`.
fn clone_strings(texts: &Vec<String>) -> (copy: Vec<String>)
    ensures
        copy@ == texts@,
{
    let mut copy: Vec<String> = Vec::new();
    let mut i: usize = 0;
    while i < texts.len()
        invariant
            i <= texts.len(),
            copy@ == texts@.take(i as int),
        decreases texts.len() - i,
    {
        copy.push(texts[i].clone());
        proof {
            assert(copy@ =~= texts@.take(i + 1));
        }
        i = i + 1;
    }
    proof {
        assert(texts@.take(texts@.len() as int) =~= texts@);
    }
    copy
}

impl MeasurementBuilder {
    /// The settings of a fresh builder around the given logfile: one host
    /// to probe, four files to download, seven seconds between probes.
    pub fn with_logfile(logfile: Option<String>) -> (b: Self)
        ensures
            b.ping_ips.deep_view() == seq![fallback_ping_ip()],
            b.downloads_urls.deep_view() == default_download_urls(),
            b.ping_delay.nanos == DEFAULT_PING_DELAY_SECS * NANOS_PER_SEC,
            b.logfile == logfile,
    {
        let b = Self {
            ping_ips: vec![String::from_str("8.8.8.8")],
            downloads_urls: vec![
                String::from_str(
                    "https://github.com/aseprite/aseprite/releases/download/v1.2.27/Aseprite-v1.2.27-Source.zip",
                ),
                String::from_str("https://dl.google.com/drive-file-stream/GoogleDriveSetup.exe"),
                String::from_str("https://awscli.amazonaws.com/AWSCLIV2.msi"),
                String::from_str("https://awscli.amazonaws.com/awscli-exe-linux-x86_64.zip"),
            ],
            ping_delay: Span::from_secs(DEFAULT_PING_DELAY_SECS),
            logfile,
        };
        assert(b.ping_ips.deep_view() =~= seq![fallback_ping_ip()]);
        assert(b.downloads_urls.deep_view() =~= default_download_urls());
        b
    }

    /// Generate a default measurement. Its log goes to a file named after
    /// the current minute in the directory of [`Self::get_data_dir`].
    /// Whatever the clock and the system say, the log file is that of some
    /// minute of the calendar below some directory for local data or below
    /// the current directory.
    pub fn new() -> (b: Self)
        ensures
            b.ping_ips.deep_view() == seq![fallback_ping_ip()],
            b.downloads_urls.deep_view() == default_download_urls(),
            b.ping_delay.nanos == DEFAULT_PING_DELAY_SECS * NANOS_PER_SEC,
            b.logfile is Some,
            exists|base: Option<Seq<char>>, stamp: CalendarStamp|
                b.logfile->0@ == #[trigger] default_logfile_of(base, stamp) && is_minute(stamp),
    {
        let dir = Self::get_data_dir();
        let name = log_file_name_now();
        let path = join_path(dir.as_str(), name.as_str());
        proof {
            let base = choose|base: Option<Seq<char>>| dir@ == #[trigger] data_dir_of(base);
            let stamp = choose|stamp: CalendarStamp|
                name@ == #[trigger] log_name(stamp) && is_minute(stamp);
            assert(path@ == default_logfile_of(base, stamp));
        }
        Self::with_logfile(Some(path))
    }

    /// This measurement with three payloads of known size as its downloads.
    pub fn with_aws_payload(&self) -> (b: Self)
        ensures
            b.downloads_urls.deep_view() == aws_payload_urls(),
            b.ping_ips@ == self.ping_ips@,
            b.ping_delay == self.ping_delay,
            b.logfile == self.logfile,
    {
        let logfile = match &self.logfile {
            Some(path) => Some(path.clone()),
            None => None,
        };
        let b = Self {
            ping_ips: clone_strings(&self.ping_ips),
            downloads_urls: vec![
                String::from_str("https://d1dgjrknbc1uuw.cloudfront.net/2M"),
                String::from_str("https://d1dgjrknbc1uuw.cloudfront.net/1M"),
                String::from_str("https://d1dgjrknbc1uuw.cloudfront.net/4M"),
            ],
            ping_delay: self.ping_delay,
            logfile,
        };
        assert(b.downloads_urls.deep_view() =~= aws_payload_urls());
        b
    }

    /// The directory containing measurement results where the user's
    /// directory for local data is `base`: `linetest` below it, or below the
    /// current directory where there is none.
    pub fn data_dir_below(base: Option<String>) -> (dir: String)
        ensures
            dir@ == data_dir_of(text_of(base)),
    {
        match base {
            Some(local) => join_path(local.as_str(), "linetest"),
            None => join_path(".", "linetest"),
        }
    }

    /// Return the directory containing measurement results: `linetest`
    /// below the user's directory for local data, or below the current
    /// directory where the system names none.
    pub fn get_data_dir() -> (dir: String)
        ensures
            exists|base: Option<Seq<char>>| dir@ == #[trigger] data_dir_of(base),
    {
        let base = local_data_dir();
        let ghost shown = text_of(base);
        let dir = Self::data_dir_below(base);
        assert(dir@ == data_dir_of(shown));
        dir
    }

    /// The host to probe: the first configured address, or `8.8.8.8` where
    /// none is configured.
    pub open spec fn target_text(&self) -> Seq<char> {
        if self.ping_ips@.len() > 0 {
            self.ping_ips@[0]@
        } else {
            fallback_ping_ip()
        }
    }

    /// The host to probe: the first configured address, or `8.8.8.8` where
    /// none is configured.
    pub fn ping_target(&self) -> (target: String)
        ensures
            target@ == self.target_text(),
    {
        if self.ping_ips.len() > 0 {
            self.ping_ips[0].clone()
        } else {
            String::from_str("8.8.8.8")
        }
    }

    /// Puts together the record of one measurement: what the first message
    /// of one probe said and when, and what the fetches of one download
    /// sample gave, how long they took together and when they were done.
    pub fn run_once(
        &self,
        message: Option<PingResult>,
        probed_at: Timestamp,
        fetches: &Vec<Option<DownloadResult>>,
        completion_time: Span,
        sampled_at: Timestamp,
    ) -> (result: MeasurementResult)
        ensures
            result@ == once_recorded(message, probed_at, fetches@, completion_time, sampled_at),
    {
        let mut result: MeasurementResult = Vec::new();
        match ping_callback(message) {
            Some(latency) => {
                result.push(Datapoint::add_latency(latency, probed_at));
            },
            None => {},
        }
        let mbits = throughput_sample(fetches, completion_time);
        result.push(Datapoint::add_tp_down(mbits, sampled_at));
        assert(result@ =~= once_recorded(
            message,
            probed_at,
            fetches@,
            completion_time,
            sampled_at,
        ));
        result
    }

    /// What beginning a run at `now` gives: a refusal where no probe could be
    /// set up, else a scheduler that probes this builder's target, pauses
    /// for its delay after each probe and samples the downloads after every
    /// [`LATENCY_DOWNLOAD_RATIO`] probes, together with the first thing that
    /// it asks for.
    pub open spec fn begins(
        &self,
        duration: Option<Span>,
        probe_ready: bool,
        now: Timestamp,
        res: Result<(Scheduler, Action), SchedulerError>,
    ) -> bool {
        if probe_ready {
            &&& res matches Ok(run)
            &&& run.0.target@ == self.target_text()
            &&& run.0 == Scheduler::begun(
                run.0.target,
                self.ping_delay,
                duration,
                LATENCY_DOWNLOAD_RATIO,
                now,
            )
            &&& run.1 == Scheduler::first_action(
                run.0.target,
                self.ping_delay,
                duration,
                LATENCY_DOWNLOAD_RATIO,
                now,
            )
            &&& run.0.wf()
        } else {
            res == Err::<(Scheduler, Action), SchedulerError>(SchedulerError::ProbeUnavailable)
        }
    }

    /// Begins a run of periodic measurements that goes on until its data
    /// points can no longer be handed over. `probe_ready` says whether a
    /// probe to [`Self::ping_target`] could be set up; where it could not,
    /// the run is refused.
    pub fn run_until_receiver_drops(&self, probe_ready: bool, now: Timestamp) -> (res: Result<
        (Scheduler, Action),
        SchedulerError,
    >)
        ensures
            self.begins(None, probe_ready, now, res),
            res is Ok <==> probe_ready,
            res matches Ok(run) ==> run.1 == Action::Probe(run.0.target),
    {
        self.run_advanced(None, probe_ready, now)
    }

    /// Begins a run of periodic measurements that starts no cycle once it
    /// has lasted longer than `duration`. `probe_ready` says whether a probe
    /// to [`Self::ping_target`] could be set up; where it could not, the run
    /// is refused.
    pub fn run_until_duration(&self, duration: Span, probe_ready: bool, now: Timestamp) -> (res:
        Result<(Scheduler, Action), SchedulerError>)
        ensures
            self.begins(Some(duration), probe_ready, now, res),
            res is Ok <==> probe_ready,
            res matches Ok(run) ==> run.1 == Action::ReadClock,
    {
        self.run_advanced(Some(duration), probe_ready, now)
    }

    /// Begins a run of periodic measurements at the moment `now`, limited
    /// to `duration` if one is given. `probe_ready` says whether a probe to
    /// [`Self::ping_target`] could be set up on this system: where it could
    /// not, the run is refused and nothing is begun. Otherwise every probe
    /// of the run goes to that host, the run pauses for this builder's delay
    /// after each probe and samples the downloads after every
    /// [`LATENCY_DOWNLOAD_RATIO`] probes.
    pub fn run_advanced(&self, duration: Option<Span>, probe_ready: bool, now: Timestamp) -> (res:
        Result<(Scheduler, Action), SchedulerError>)
        ensures
            self.begins(duration, probe_ready, now, res),
            res is Ok <==> probe_ready,
            res matches Ok(run) ==> run.1 == if duration is Some {
                Action::ReadClock
            } else {
                Action::Probe(run.0.target)
            },
    {
        Scheduler::start(
            self.ping_target(),
            self.ping_delay,
            duration,
            LATENCY_DOWNLOAD_RATIO,
            probe_ready,
            now,
        )
    }
}

/// Every probe of a run that a builder begins goes to the builder's first
/// address, or to `8.8.8.8` where it has none: the first action and every
/// action that follows, whatever is reported to the scheduler, names that
/// host and no other.
pub proof fn lemma_run_probes_the_first_address(
    builder: MeasurementBuilder,
    duration: Option<Span>,
    now: Timestamp,
    res: Result<(Scheduler, Action), SchedulerError>,
    events: Seq<Event>,
    k: int,
)
    requires
        builder.begins(duration, true, now, res),
        0 <= k < res->Ok_0.0.trace(events).len(),
    ensures
        res->Ok_0.1 matches Action::Probe(host) ==> host@ == builder.target_text(),
        res->Ok_0.0.trace(events)[k] matches Action::Probe(host) ==> host@
            == builder.target_text(),
{
    lemma_probes_go_to_the_target(res->Ok_0.0, events, k);
}

impl Default for MeasurementBuilder {
    fn default() -> (b: Self)
        ensures
            b.ping_ips.deep_view() == seq![fallback_ping_ip()],
            b.downloads_urls.deep_view() == default_download_urls(),
            b.ping_delay.nanos == DEFAULT_PING_DELAY_SECS * NANOS_PER_SEC,
            b.logfile is Some,
            exists|base: Option<Seq<char>>, stamp: CalendarStamp|
                b.logfile->0@ == #[trigger] default_logfile_of(base, stamp) && is_minute(stamp),
    {
        MeasurementBuilder::new()
    }
}

} // verus!
