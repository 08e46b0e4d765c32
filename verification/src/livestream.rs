//! Lifecycle decisions for the stream-relay pipeline kind: a stream-capture
//! producer whose output is copied into a transcoder consumer, the two
//! supervised as one unit per channel.
//!
//! The surrounding program validates nothing itself: the presence check,
//! the source-url validation, the argument lists, the failure containment
//! of a partially wired pair, and the teardown rule of a failed relay are
//! all decided here. The program spawns, pipes, copies and kills, and feeds
//! the outcomes back as plain events.

use vstd::prelude::*;
use vstd::string::StringExecFns;

use crate::error::OrchestratorError;
use crate::lifecycle::arg_views;
use crate::locate::first_existing_from;
use crate::locate::locate_executable;
use crate::locate::ExecCandidate;
use crate::registry::Registry;
use crate::target::spec_resolve_target;
use crate::target::spec_rtmp_detail;
use crate::target::rtmp_detail_string;
use crate::target::RtmpTarget;

pub use crate::target::extract_rtmp_stream_details;

verus! {

/// The reported liveness of a channel's relay pipeline.
#[derive(Clone, Copy, Debug, PartialEq, Eq, Structural)]
pub enum ServiceStatus {
    Active,
    Inactive,
}

/// The body of a status report.
#[derive(Clone, Copy, Debug, PartialEq, Eq, Structural)]
pub struct ServiceStatusResponse {
    pub status: ServiceStatus,
}

/// A requested lifecycle action for the stream kind.
#[derive(Clone, Copy, Debug, PartialEq, Eq, Structural)]
pub enum StreamAction {
    Start,
    Stop,
}

/// The parameters of a control request for the stream kind: the action,
/// and for a start the upstream source to capture.
#[derive(Clone, Debug)]
pub struct StreamParams {
    pub action: StreamAction,
    pub url: Option<String>,
}

/// One channel's running relay pipeline: the tokens of the producer
/// (stream capture) and consumer (transcoder) processes in the surrounding
/// program's table of handles. The pair lives and dies as one unit.
#[derive(Clone, Copy, Debug, PartialEq, Eq, Structural)]
pub struct PipelinePair {
    pub producer: u64,
    pub consumer: u64,
}

/// What `url::Url::parse` makes of a string: the normalized serialization
/// of the parsed absolute url, or nothing when the string is not one. The
/// result depends on the string alone.
pub uninterp spec fn parsed_source_url(raw: Seq<char>) -> Option<Seq<char>>;

/// Relies on `url::Url::parse` to validate an absolute url, and on
/// `url::Url::as_str` for the normalized serialization of the parsed value.
#[verifier::external_body]
fn parse_source_url(raw: &str) -> (r: Option<String>)
    ensures
        r is Some <==> parsed_source_url(raw@) is Some,
        r is Some ==> r->0@ == parsed_source_url(raw@)->0,
{
    match url::Url::parse(raw) {
        Ok(u) => Some(u.as_str().to_string()),
        Err(_) => None,
    }
}

/// Checks whether a stream start may proceed: the channel must have no
/// running entry, and the request must carry a source url that parses as an
/// absolute url. Yields the normalized url the capture process is given.
/// The registry is never changed by the check.
pub fn stream_start_check(reg: &Registry<PipelinePair>, id: i32, url: &Option<String>) -> (r:
    Result<String, OrchestratorError>)
    ensures
        match r {
            Ok(u) => {
                &&& !reg@.contains_key(id)
                &&& url is Some
                &&& parsed_source_url(url->0@) == Option::Some(u@)
            },
            Err(e) => {
                ||| (e == OrchestratorError::AlreadyRunning && reg@.contains_key(id))
                ||| (e == OrchestratorError::SourceUrlMissing && !reg@.contains_key(id)
                    && url is None)
                ||| (e == OrchestratorError::SourceUrlInvalid && !reg@.contains_key(id)
                    && url is Some && parsed_source_url(url->0@) is None)
            },
        },
{
    if reg.contains(id) {
        return Err(OrchestratorError::AlreadyRunning);
    }
    match url {
        None => Err(OrchestratorError::SourceUrlMissing),
        Some(raw) => match parse_source_url(raw.as_str()) {
            Some(normalized) => Ok(normalized),
            None => Err(OrchestratorError::SourceUrlInvalid),
        },
    }
}

/// What the wiring phase of a stream start came to. Each token names a
/// spawned process in the surrounding program's table of handles; a
/// variant carries exactly the processes that exist at that point.
#[derive(Clone, Copy, Debug, PartialEq, Eq, Structural)]
pub enum StreamStartEvent {
    /// The capture process could not be spawned; nothing exists.
    ProducerSpawnFailed,
    /// The capture process spawned but did not yield its piped stdio.
    ProducerPipeFailed { producer: u64 },
    /// The ingest configuration yielded no target after the capture
    /// process had already spawned.
    TargetFailed { producer: u64 },
    /// The transcoder could not be spawned after the capture process had.
    ConsumerSpawnFailed { producer: u64 },
    /// The transcoder spawned but did not yield its piped stdio.
    ConsumerPipeFailed { producer: u64, consumer: u64 },
    /// Both processes run, their pipes are acquired, and the relay task
    /// copies producer output into consumer input.
    Wired { producer: u64, consumer: u64 },
}

/// How a stream start settles the registry, what it reports, and which
/// already-spawned processes must be terminated: a partially started
/// pipeline is never recorded and never leaves an orphaned leg.
pub open spec fn spec_stream_start_finish(
    m: Map<i32, PipelinePair>,
    id: i32,
    ev: StreamStartEvent,
) -> (Map<i32, PipelinePair>, Result<(), OrchestratorError>, Seq<u64>) {
    match ev {
        StreamStartEvent::ProducerSpawnFailed => (
            m,
            Err(OrchestratorError::SpawnFailed),
            Seq::empty(),
        ),
        StreamStartEvent::ProducerPipeFailed { producer } => (
            m,
            Err(OrchestratorError::PipeAcquisitionFailed),
            seq![producer],
        ),
        StreamStartEvent::TargetFailed { producer } => (
            m,
            Err(OrchestratorError::NoValidTarget),
            seq![producer],
        ),
        StreamStartEvent::ConsumerSpawnFailed { producer } => (
            m,
            Err(OrchestratorError::SpawnFailed),
            seq![producer],
        ),
        StreamStartEvent::ConsumerPipeFailed { producer, consumer } => (
            m,
            Err(OrchestratorError::PipeAcquisitionFailed),
            seq![producer, consumer],
        ),
        StreamStartEvent::Wired { producer, consumer } => (
            m.insert(id, PipelinePair { producer, consumer }),
            Ok(()),
            Seq::empty(),
        ),
    }
}

/// Settles a stream start. Only a fully wired pair is recorded; on any
/// failure nothing is inserted, the error is reported, and the second
/// component names every already-spawned process the caller must
/// terminate, so a failed start leaves neither an orphan nor an entry.
pub fn stream_start_finish(reg: &mut Registry<PipelinePair>, id: i32, ev: StreamStartEvent) -> (r:
    (Result<(), OrchestratorError>, Vec<u64>))
    requires
        !old(reg)@.contains_key(id),
    ensures
        final(reg)@ == spec_stream_start_finish(old(reg)@, id, ev).0,
        r.0 == spec_stream_start_finish(old(reg)@, id, ev).1,
        r.1@ == spec_stream_start_finish(old(reg)@, id, ev).2,
{
    match ev {
        StreamStartEvent::ProducerSpawnFailed => {
            let kills: Vec<u64> = Vec::new();
            assert(kills@ =~= Seq::<u64>::empty());
            (Err(OrchestratorError::SpawnFailed), kills)
        },
        StreamStartEvent::ProducerPipeFailed { producer } => {
            let mut kills: Vec<u64> = Vec::new();
            kills.push(producer);
            assert(kills@ =~= seq![producer]);
            (Err(OrchestratorError::PipeAcquisitionFailed), kills)
        },
        StreamStartEvent::TargetFailed { producer } => {
            let mut kills: Vec<u64> = Vec::new();
            kills.push(producer);
            assert(kills@ =~= seq![producer]);
            (Err(OrchestratorError::NoValidTarget), kills)
        },
        StreamStartEvent::ConsumerSpawnFailed { producer } => {
            let mut kills: Vec<u64> = Vec::new();
            kills.push(producer);
            assert(kills@ =~= seq![producer]);
            (Err(OrchestratorError::SpawnFailed), kills)
        },
        StreamStartEvent::ConsumerPipeFailed { producer, consumer } => {
            let mut kills: Vec<u64> = Vec::new();
            kills.push(producer);
            kills.push(consumer);
            assert(kills@ =~= seq![producer, consumer]);
            (Err(OrchestratorError::PipeAcquisitionFailed), kills)
        },
        StreamStartEvent::Wired { producer, consumer } => {
            reg.commit(id, PipelinePair { producer, consumer });
            let kills: Vec<u64> = Vec::new();
            assert(kills@ =~= Seq::<u64>::empty());
            (Ok(()), kills)
        },
    }
}

/// Which member's liveness decides whether the pair still runs: the
/// consumer's. The pair is one lifecycle unit, and a dead consumer means
/// the unit is not running.
pub open spec fn spec_pair_poll_member(pair: PipelinePair) -> u64 {
    pair.consumer
}

/// Names the process whose liveness a status poll examines for the pair.
pub fn pair_poll_member(pair: &PipelinePair) -> (r: u64)
    ensures
        r == spec_pair_poll_member(*pair),
{
    pair.consumer
}

/// Which processes must still be terminated when a status poll finds the
/// pair dead: the producer — the polled consumer is already gone, and the
/// dead unit never leaves its other leg running alone.
pub open spec fn spec_dead_pair_survivors(pair: PipelinePair) -> Seq<u64> {
    seq![pair.producer]
}

/// Names the processes to terminate once a status poll has found the pair
/// dead and its entry has left the registry.
pub fn dead_pair_survivors(pair: &PipelinePair) -> (kills: Vec<u64>)
    ensures
        kills@ == spec_dead_pair_survivors(*pair),
{
    let mut kills: Vec<u64> = Vec::new();
    kills.push(pair.producer);
    assert(kills@ =~= seq![pair.producer]);
    kills
}

/// Which processes a failed or finished relay tears down: always both legs
/// of the pair, each terminated independently, so a failed relay never
/// leaves one leg running alone.
pub open spec fn spec_relay_teardown(pair: PipelinePair) -> Seq<u64> {
    seq![pair.producer, pair.consumer]
}

/// Names the processes the relay task must terminate when the copy between
/// the pair ends, by error or by closure of either stream.
pub fn relay_teardown(pair: &PipelinePair) -> (kills: Vec<u64>)
    ensures
        kills@ == spec_relay_teardown(*pair),
{
    let mut kills: Vec<u64> = Vec::new();
    kills.push(pair.producer);
    kills.push(pair.consumer);
    assert(kills@ =~= seq![pair.producer, pair.consumer]);
    kills
}

/// The RTMP sink the transcoder publishes to: the resolved target on the
/// local ingest listener.
pub open spec fn spec_ffmpeg_sink_url(port: int, key: Seq<char>) -> Seq<char> {
    "rtmp://127.0.0.1"@ + spec_rtmp_detail(port, key)
}

/// Renders the RTMP sink the transcoder publishes to.
pub fn ffmpeg_sink_url(target: &RtmpTarget) -> (r: String)
    ensures
        r@ == spec_ffmpeg_sink_url(target.port as int, target.stream_key@),
{
    let mut r = String::from_str("rtmp://127.0.0.1");
    let detail = rtmp_detail_string(target);
    r.append(detail.as_str());
    r
}

/// The arguments of the stream-capture process: the fixed live-edge,
/// ring-buffer, resolution-exclusion and stream-selection policy, the
/// validated source url, and output to its own stdout.
pub open spec fn spec_streamlink_args(source_url: Seq<char>) -> Seq<Seq<char>> {
    seq![
        "--hls-live-edge"@,
        "6"@,
        "--ringbuffer-size"@,
        "128M"@,
        "-4"@,
        "--stream-sorting-excludes"@,
        ">720p"@,
        "--default-stream"@,
        "best"@,
        "--url"@,
        source_url,
        "-o"@,
        "-"@,
    ]
}

/// Builds the command-line arguments of the stream-capture process.
pub fn streamlink_args(source_url: &str) -> (r: Vec<String>)
    ensures
        arg_views(r@) == spec_streamlink_args(source_url@),
{
    let mut r: Vec<String> = Vec::new();
    r.push(String::from_str("--hls-live-edge"));
    r.push(String::from_str("6"));
    r.push(String::from_str("--ringbuffer-size"));
    r.push(String::from_str("128M"));
    r.push(String::from_str("-4"));
    r.push(String::from_str("--stream-sorting-excludes"));
    r.push(String::from_str(">720p"));
    r.push(String::from_str("--default-stream"));
    r.push(String::from_str("best"));
    r.push(String::from_str("--url"));
    r.push(String::from_str(source_url));
    r.push(String::from_str("-o"));
    r.push(String::from_str("-"));
    assert(arg_views(r@) =~~= spec_streamlink_args(source_url@));
    r
}

/// The arguments of the transcoder: read from its own stdin, pass both
/// codecs through unchanged, and publish flow-formatted output to the
/// given RTMP sink.
pub open spec fn spec_ffmpeg_args(sink_url: Seq<char>) -> Seq<Seq<char>> {
    seq![
        "-re"@,
        "-hide_banner"@,
        "-nostats"@,
        "-v"@,
        "level+error"@,
        "-i"@,
        "pipe:0"@,
        "-vcodec"@,
        "copy"@,
        "-acodec"@,
        "copy"@,
        "-f"@,
        "flv"@,
        sink_url,
    ]
}

/// Builds the command-line arguments of the transcoder.
pub fn ffmpeg_args(sink_url: &str) -> (r: Vec<String>)
    ensures
        arg_views(r@) == spec_ffmpeg_args(sink_url@),
{
    let mut r: Vec<String> = Vec::new();
    r.push(String::from_str("-re"));
    r.push(String::from_str("-hide_banner"));
    r.push(String::from_str("-nostats"));
    r.push(String::from_str("-v"));
    r.push(String::from_str("level+error"));
    r.push(String::from_str("-i"));
    r.push(String::from_str("pipe:0"));
    r.push(String::from_str("-vcodec"));
    r.push(String::from_str("copy"));
    r.push(String::from_str("-acodec"));
    r.push(String::from_str("copy"));
    r.push(String::from_str("-f"));
    r.push(String::from_str("flv"));
    r.push(String::from_str(sink_url));
    assert(arg_views(r@) =~~= spec_ffmpeg_args(sink_url@));
    r
}

/// Builds the transcoder's argument list from the ingest-configuration
/// text: the target is resolved and embedded in the RTMP sink. Fails with
/// `NoValidTarget` exactly when the text resolves to no target; the caller
/// then tears down the already-spawned capture process.
pub fn transcoder_args(ingest_param: &str) -> (r: Result<Vec<String>, OrchestratorError>)
    ensures
        match r {
            Ok(args) => {
                &&& spec_resolve_target(ingest_param@) is Some
                &&& ({
                    let target = spec_resolve_target(ingest_param@)->0;
                    arg_views(args@) == spec_ffmpeg_args(spec_ffmpeg_sink_url(target.0, target.1))
                })
            },
            Err(e) => {
                &&& e == OrchestratorError::NoValidTarget
                &&& spec_resolve_target(ingest_param@) is None
            },
        },
{
    let target = extract_rtmp_stream_details(ingest_param)?;
    let sink = ffmpeg_sink_url(&target);
    Ok(ffmpeg_args(sink.as_str()))
}

/// Everything a stream-relay spawn needs, assembled before any process
/// exists: the two resolved tool paths and the capture process's full
/// argument list. The transcoder's arguments follow later, from
/// [`transcoder_args`], once the capture process runs.
#[derive(Clone, Debug, PartialEq, Eq)]
pub struct StreamStartPlan {
    /// The path of the stream-capture tool, the first existing candidate.
    pub producer_exe: String,
    /// The capture tool's arguments, around the validated source url.
    pub producer_args: Vec<String>,
    /// The path of the transcoder, the first existing candidate.
    pub consumer_exe: String,
}

/// Prepares a stream start under the registry's exclusive access, in
/// order: the presence check, the source-url validation, and the location
/// of both tools. Any failure is reported before anything is spawned, so a
/// failed preparation never needs a cleanup; the registry is never changed
/// here.
pub fn stream_start_plan(
    reg: &Registry<PipelinePair>,
    id: i32,
    url: &Option<String>,
    capture_candidates: &Vec<ExecCandidate>,
    transcoder_candidates: &Vec<ExecCandidate>,
) -> (r: Result<StreamStartPlan, OrchestratorError>)
    ensures
        match r {
            Ok(plan) => {
                &&& !reg@.contains_key(id)
                &&& url is Some
                &&& parsed_source_url(url->0@) is Some
                &&& arg_views(plan.producer_args@) == spec_streamlink_args(
                    parsed_source_url(url->0@)->0,
                )
                &&& first_existing_from(capture_candidates@, 0) is Some
                &&& plan.producer_exe@ == capture_candidates@[first_existing_from(
                    capture_candidates@,
                    0,
                )->0].path@
                &&& first_existing_from(transcoder_candidates@, 0) is Some
                &&& plan.consumer_exe@ == transcoder_candidates@[first_existing_from(
                    transcoder_candidates@,
                    0,
                )->0].path@
            },
            Err(e) => {
                ||| (e == OrchestratorError::AlreadyRunning && reg@.contains_key(id))
                ||| (e == OrchestratorError::SourceUrlMissing && !reg@.contains_key(id)
                    && url is None)
                ||| (e == OrchestratorError::SourceUrlInvalid && !reg@.contains_key(id)
                    && url is Some && parsed_source_url(url->0@) is None)
                ||| (e == OrchestratorError::ExecutableNotFound && !reg@.contains_key(id)
                    && url is Some && parsed_source_url(url->0@) is Some && (first_existing_from(
                    capture_candidates@,
                    0,
                ) is None || first_existing_from(transcoder_candidates@, 0) is None))
            },
        },
{
    let source_url = stream_start_check(reg, id, url)?;
    let producer_exe = locate_executable(capture_candidates)?;
    let consumer_exe = locate_executable(transcoder_candidates)?;
    let producer_args = streamlink_args(source_url.as_str());
    Ok(StreamStartPlan { producer_exe, producer_args, consumer_exe })
}

/// The status report for a poll result: a live pair is reported active,
/// anything else inactive.
pub fn status_response(alive: bool) -> (r: ServiceStatusResponse)
    ensures
        r.status is Active <==> alive,
{
    if alive {
        ServiceStatusResponse { status: ServiceStatus::Active }
    } else {
        ServiceStatusResponse { status: ServiceStatus::Inactive }
    }
}

} // verus!
