//! Lifecycle decisions for the companion-bot process kind: one independent
//! external process per channel, supervised but never piped.
//!
//! The surrounding program locates the tool, resolves the RTMP target,
//! spawns the process and acquires its stdio under the registry's exclusive
//! access, and reports each outcome here as a plain event; the decisions —
//! what to report, what to kill, and what to record — are made and verified
//! here.

use vstd::prelude::*;
use vstd::string::StringExecFns;

use crate::decimal::decimal_string;
use crate::decimal::spec_decimal;
use crate::error::OrchestratorError;
use crate::lifecycle::arg_views;
use crate::locate::first_existing_from;
use crate::locate::locate_executable;
use crate::locate::ExecCandidate;
use crate::registry::Registry;
use crate::target::extract_rtmp_stream_details;
use crate::target::rtmp_detail_string;
use crate::target::spec_resolve_target;
use crate::target::spec_rtmp_detail;

verus! {

/// The reported liveness of a channel's companion-bot process.
#[derive(Clone, Copy, Debug, PartialEq, Eq, Structural)]
pub enum ServiceStatus {
    Active,
    Inactive,
}

/// The body of a status report.
#[derive(Clone, Copy, Debug, PartialEq, Eq, Structural)]
pub struct ServiceStatusResponse {
    pub status: ServiceStatus,
}

/// A requested lifecycle action for the companion-bot kind.
#[derive(Clone, Copy, Debug, PartialEq, Eq, Structural)]
pub enum ServiceAction {
    Start,
    Stop,
}

/// The parameters of a control request for the companion-bot kind.
#[derive(Clone, Copy, Debug, PartialEq, Eq, Structural)]
pub struct ServiceControlParams {
    pub action: ServiceAction,
}

/// What the spawn phase of a companion-bot start came to. The token names
/// the spawned process in the surrounding program's table of handles.
#[derive(Clone, Copy, Debug, PartialEq, Eq, Structural)]
pub enum BotStartEvent {
    /// The operating system refused the spawn; no process exists.
    SpawnFailed,
    /// The process spawned but did not yield a piped stdio handle.
    PipeFailed { proc: u64 },
    /// The process spawned and both stdio pipes were acquired.
    Piped { proc: u64 },
}

/// How a companion-bot start settles the registry, what it reports, and
/// which spawned process must be terminated to avoid an orphan.
pub open spec fn spec_bot_start_finish(m: Map<i32, u64>, id: i32, ev: BotStartEvent) -> (
    Map<i32, u64>,
    Result<(), OrchestratorError>,
    Option<u64>,
) {
    match ev {
        BotStartEvent::SpawnFailed => (m, Err(OrchestratorError::SpawnFailed), Option::None),
        BotStartEvent::PipeFailed { proc } => (
            m,
            Err(OrchestratorError::PipeAcquisitionFailed),
            Option::Some(proc),
        ),
        BotStartEvent::Piped { proc } => (m.insert(id, proc), Ok(()), Option::None),
    }
}

/// Settles a companion-bot start. Only a fully piped process is recorded;
/// on any failure nothing is inserted, the error is reported, and the
/// second component names the process the caller must terminate so that a
/// failed start leaves no orphan.
pub fn bot_start_finish(reg: &mut Registry<u64>, id: i32, ev: BotStartEvent) -> (r: (
    Result<(), OrchestratorError>,
    Option<u64>,
))
    requires
        !old(reg)@.contains_key(id),
    ensures
        final(reg)@ == spec_bot_start_finish(old(reg)@, id, ev).0,
        r.0 == spec_bot_start_finish(old(reg)@, id, ev).1,
        r.1 == spec_bot_start_finish(old(reg)@, id, ev).2,
{
    match ev {
        BotStartEvent::SpawnFailed => (Err(OrchestratorError::SpawnFailed), None),
        BotStartEvent::PipeFailed { proc } => (
            Err(OrchestratorError::PipeAcquisitionFailed),
            Some(proc),
        ),
        BotStartEvent::Piped { proc } => {
            reg.commit(id, proc);
            (Ok(()), None)
        },
    }
}

/// The arguments of the companion-bot process: the channel id, the
/// channel's display name, and the resolved RTMP target.
pub open spec fn spec_bot_args(channel_id: int, name: Seq<char>, details: Seq<char>) -> Seq<
    Seq<char>,
> {
    seq![
        "--monitor_channel="@ + spec_decimal(channel_id),
        "--channel_name="@ + name,
        "--rtmp_details="@ + details,
    ]
}

/// Builds the command-line arguments of the companion-bot process.
pub fn bot_args(channel_id: i32, channel_name: &str, rtmp_details: &str) -> (r: Vec<String>)
    requires
        channel_id >= 0,
    ensures
        arg_views(r@) == spec_bot_args(channel_id as int, channel_name@, rtmp_details@),
{
    let mut monitor = String::from_str("--monitor_channel=");
    let id_digits = decimal_string(channel_id as u32);
    monitor.append(id_digits.as_str());

    let mut name = String::from_str("--channel_name=");
    name.append(channel_name);

    let mut details = String::from_str("--rtmp_details=");
    details.append(rtmp_details);

    let mut r: Vec<String> = Vec::new();
    r.push(monitor);
    r.push(name);
    r.push(details);
    assert(arg_views(r@) =~~= spec_bot_args(channel_id as int, channel_name@, rtmp_details@));
    r
}

/// Everything a companion-bot spawn needs, assembled before any process
/// exists: the resolved tool path and the full argument list.
#[derive(Clone, Debug, PartialEq, Eq)]
pub struct BotStartPlan {
    /// The path of the companion-bot tool, the first existing candidate.
    pub exe: String,
    /// The tool's arguments: channel id, channel name and RTMP target.
    pub args: Vec<String>,
}

/// Prepares a companion-bot start under the registry's exclusive access, in
/// order: the presence check, the tool location, and the target resolution.
/// Any failure is reported before anything is spawned, so a failed
/// preparation never needs a cleanup; the registry is never changed here.
pub fn bot_start_plan(
    reg: &Registry<u64>,
    id: i32,
    channel_name: &str,
    ingest_param: &str,
    candidates: &Vec<ExecCandidate>,
) -> (r: Result<BotStartPlan, OrchestratorError>)
    requires
        id >= 0,
    ensures
        match r {
            Ok(plan) => {
                &&& !reg@.contains_key(id)
                &&& first_existing_from(candidates@, 0) is Some
                &&& plan.exe@ == candidates@[first_existing_from(candidates@, 0)->0].path@
                &&& spec_resolve_target(ingest_param@) is Some
                &&& ({
                    let target = spec_resolve_target(ingest_param@)->0;
                    arg_views(plan.args@) == spec_bot_args(
                        id as int,
                        channel_name@,
                        spec_rtmp_detail(target.0, target.1),
                    )
                })
            },
            Err(e) => {
                ||| (e == OrchestratorError::AlreadyRunning && reg@.contains_key(id))
                ||| (e == OrchestratorError::ExecutableNotFound && !reg@.contains_key(id)
                    && first_existing_from(candidates@, 0) is None)
                ||| (e == OrchestratorError::NoValidTarget && !reg@.contains_key(id)
                    && first_existing_from(candidates@, 0) is Some && spec_resolve_target(
                    ingest_param@,
                ) is None)
            },
        },
{
    reg.start_check(id)?;
    let exe = locate_executable(candidates)?;
    let target = extract_rtmp_stream_details(ingest_param)?;
    let details = rtmp_detail_string(&target);
    let args = bot_args(id, channel_name, details.as_str());
    Ok(BotStartPlan { exe, args })
}

/// The status report for a poll result: a live process is reported active,
/// anything else inactive.
pub fn status_response(alive: bool) -> (r: ServiceStatusResponse)
    ensures
        r.status is Active <==> alive,
{
    if alive {
        ServiceStatusResponse { status: ServiceStatus::Active }
    } else {
        ServiceStatusResponse { status: ServiceStatus::Inactive }
    }
}

} // verus!
