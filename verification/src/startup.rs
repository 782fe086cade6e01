//! Decisions of session-startup model preparation: what to prepare when a session starts, how a
//! background preparation resolves when the first regular turn needs it, and which startup
//! telemetry that resolution records.
//!
//! The caller runs the background task, waits on it under a deadline or a cancellation, and
//! measures elapsed times; it hands the outcome to these functions and carries out the plan.

use vstd::prelude::*;

verus! {

/// What session startup prepares in the background.
#[derive(Debug, Clone, Copy, PartialEq, Eq, Structural)]
pub struct StartupPlan {
    /// Whether the code-mode host is warmed up.
    pub prewarm_code_mode: bool,
    /// Whether a model turn runtime is prepared for the first turn; otherwise only the
    /// session-scoped backend preparation runs.
    pub prepare_turn_runtime: bool,
}

/// The plan of session startup: the code-mode host is warmed up when that feature is enabled and
/// the host is available; a turn runtime is prepared when the backend prepares per turn.
pub fn startup_plan(code_mode_prewarm_enabled: bool, code_mode_available: bool, uses_turn_runtime: bool) -> (r: StartupPlan)
    ensures
        r.prewarm_code_mode == (code_mode_prewarm_enabled && code_mode_available),
        r.prepare_turn_runtime == uses_turn_runtime,
{
    StartupPlan {
        prewarm_code_mode: code_mode_prewarm_enabled && code_mode_available,
        prepare_turn_runtime: uses_turn_runtime,
    }
}

/// Why a prepared runtime is unavailable to the first turn.
#[derive(Debug, Clone, Copy, PartialEq, Eq, Structural)]
pub enum UnavailableStatus {
    TimedOut,
    Failed,
    JoinFailed,
    NotScheduled,
}

impl UnavailableStatus {
    /// The status label recorded in telemetry.
    pub fn as_str(&self) -> (r: &'static str)
        ensures
            r@ == spec_status_label(*self),
    {
        match self {
            UnavailableStatus::TimedOut => "timed_out",
            UnavailableStatus::Failed => "failed",
            UnavailableStatus::JoinFailed => "join_failed",
            UnavailableStatus::NotScheduled => "not_scheduled",
        }
    }
}

pub open spec fn spec_status_label(status: UnavailableStatus) -> Seq<char> {
    match status {
        UnavailableStatus::TimedOut => "timed_out"@,
        UnavailableStatus::Failed => "failed"@,
        UnavailableStatus::JoinFailed => "join_failed"@,
        UnavailableStatus::NotScheduled => "not_scheduled"@,
    }
}

/// How the first regular turn finds the startup preparation; `R` is the prepared runtime.
#[derive(Debug, Clone, PartialEq)]
pub enum SessionStartupPreparationResolution<R> {
    Cancelled,
    Ready(R),
    Unavailable { status: UnavailableStatus, preparation_duration_ms: Option<u64> },
}

/// How the background preparation task ended.
#[derive(Debug, Clone, PartialEq)]
pub enum PreparationJoinResult<R> {
    /// The task returned a prepared runtime.
    Prepared(R),
    /// The task returned an error.
    Failed,
    /// The task could not be joined (it panicked or was aborted).
    JoinFailed,
}

/// What waiting for the background preparation produced.
#[derive(Debug, Clone, PartialEq)]
pub enum PreparationWait<R> {
    /// The task ended, before the first turn or within the remaining time.
    Joined(PreparationJoinResult<R>),
    /// The remaining time ran out first; the task has been aborted.
    TimedOut,
    /// The turn was cancelled first; the task has been aborted.
    Cancelled,
}

/// Time left for the preparation when the first turn asks for it: the timeout less the age of
/// the preparation, and none once it is spent.
pub fn remaining_preparation_time(timeout_ms: u64, age_ms: u64) -> (r: u64)
    ensures
        r == (if age_ms >= timeout_ms { 0 } else { timeout_ms - age_ms }),
{
    if age_ms >= timeout_ms { 0 } else { timeout_ms - age_ms }
}

pub open spec fn spec_join_resolution<R>(result: PreparationJoinResult<R>, elapsed_ms: u64) -> SessionStartupPreparationResolution<R> {
    match result {
        PreparationJoinResult::Prepared(runtime) => SessionStartupPreparationResolution::Ready(runtime),
        PreparationJoinResult::Failed => SessionStartupPreparationResolution::Unavailable {
            status: UnavailableStatus::Failed,
            preparation_duration_ms: None,
        },
        PreparationJoinResult::JoinFailed => SessionStartupPreparationResolution::Unavailable {
            status: UnavailableStatus::JoinFailed,
            preparation_duration_ms: Some(elapsed_ms),
        },
    }
}

/// The resolution of a finished preparation task; `elapsed_ms` is the age of the preparation.
pub fn resolution_from_join_result<R>(result: PreparationJoinResult<R>, elapsed_ms: u64) -> (r: SessionStartupPreparationResolution<R>)
    ensures
        r == spec_join_resolution(result, elapsed_ms),
{
    match result {
        PreparationJoinResult::Prepared(runtime) => SessionStartupPreparationResolution::Ready(runtime),
        PreparationJoinResult::Failed => SessionStartupPreparationResolution::Unavailable {
            status: UnavailableStatus::Failed,
            preparation_duration_ms: None,
        },
        PreparationJoinResult::JoinFailed => SessionStartupPreparationResolution::Unavailable {
            status: UnavailableStatus::JoinFailed,
            preparation_duration_ms: Some(elapsed_ms),
        },
    }
}

/// A startup metric.
#[derive(Debug, Clone, Copy, PartialEq, Eq, Structural)]
pub enum StartupMetric {
    /// Age of the preparation when the first turn asked for it.
    AgeAtFirstTurn,
    /// Duration of the preparation itself.
    PreparationDuration,
}

/// The status label of a telemetry record.
#[derive(Debug, Clone, Copy, PartialEq, Eq, Structural)]
pub enum TelemetryStatus {
    Cancelled,
    Ready,
    Consumed,
    Unavailable(UnavailableStatus),
}

/// One record of startup telemetry.
#[derive(Debug, Clone, Copy, PartialEq, Eq, Structural)]
pub enum StartupTelemetry {
    /// The resolve phase, with its duration and status.
    ResolvePhase { duration_ms: u64, status: TelemetryStatus },
    /// A duration metric with its status.
    Duration { metric: StartupMetric, duration_ms: u64, status: TelemetryStatus },
}

/// The measured times of one resolution.
#[derive(Debug, Clone, Copy, PartialEq, Eq, Structural)]
pub struct ResolveTimes {
    /// Age of the preparation when the first turn asked for it.
    pub age_at_first_turn_ms: u64,
    /// Age of the preparation when the wait ended.
    pub preparation_elapsed_ms: u64,
    /// Time spent resolving.
    pub resolve_elapsed_ms: u64,
}

/// The resolution of a wait and the telemetry it records, in order.
pub open spec fn spec_resolve<R>(
    wait: PreparationWait<R>,
    times: ResolveTimes,
    resolution: SessionStartupPreparationResolution<R>,
    records: Seq<StartupTelemetry>,
) -> bool {
    match wait {
        PreparationWait::Cancelled => {
            &&& resolution == SessionStartupPreparationResolution::<R>::Cancelled
            &&& records =~= seq![
                StartupTelemetry::ResolvePhase { duration_ms: times.resolve_elapsed_ms, status: TelemetryStatus::Cancelled },
                StartupTelemetry::Duration {
                    metric: StartupMetric::AgeAtFirstTurn,
                    duration_ms: times.age_at_first_turn_ms,
                    status: TelemetryStatus::Cancelled,
                },
                StartupTelemetry::Duration {
                    metric: StartupMetric::PreparationDuration,
                    duration_ms: times.preparation_elapsed_ms,
                    status: TelemetryStatus::Cancelled,
                },
            ]
        },
        PreparationWait::TimedOut => {
            let status = TelemetryStatus::Unavailable(UnavailableStatus::TimedOut);
            &&& resolution == SessionStartupPreparationResolution::<R>::Unavailable {
                status: UnavailableStatus::TimedOut,
                preparation_duration_ms: Some(times.preparation_elapsed_ms),
            }
            &&& records =~= seq![
                StartupTelemetry::ResolvePhase { duration_ms: times.resolve_elapsed_ms, status },
                StartupTelemetry::Duration { metric: StartupMetric::AgeAtFirstTurn, duration_ms: times.age_at_first_turn_ms, status },
                StartupTelemetry::Duration { metric: StartupMetric::PreparationDuration, duration_ms: times.preparation_elapsed_ms, status },
            ]
        },
        PreparationWait::Joined(result) => {
            &&& resolution == spec_join_resolution(result, times.preparation_elapsed_ms)
            &&& match result {
                PreparationJoinResult::Prepared(_) => records =~= seq![
                    StartupTelemetry::ResolvePhase { duration_ms: times.resolve_elapsed_ms, status: TelemetryStatus::Ready },
                    StartupTelemetry::Duration {
                        metric: StartupMetric::AgeAtFirstTurn,
                        duration_ms: times.age_at_first_turn_ms,
                        status: TelemetryStatus::Consumed,
                    },
                ],
                PreparationJoinResult::Failed => {
                    let status = TelemetryStatus::Unavailable(UnavailableStatus::Failed);
                    records =~= seq![
                        StartupTelemetry::ResolvePhase { duration_ms: times.resolve_elapsed_ms, status },
                        StartupTelemetry::Duration { metric: StartupMetric::AgeAtFirstTurn, duration_ms: times.age_at_first_turn_ms, status },
                    ]
                },
                PreparationJoinResult::JoinFailed => {
                    let status = TelemetryStatus::Unavailable(UnavailableStatus::JoinFailed);
                    records =~= seq![
                        StartupTelemetry::ResolvePhase { duration_ms: times.resolve_elapsed_ms, status },
                        StartupTelemetry::Duration { metric: StartupMetric::AgeAtFirstTurn, duration_ms: times.age_at_first_turn_ms, status },
                        StartupTelemetry::Duration { metric: StartupMetric::PreparationDuration, duration_ms: times.preparation_elapsed_ms, status },
                    ]
                },
            }
        },
    }
}

/// Resolves a startup preparation for the first regular turn: a cancelled wait resolves as
/// cancelled, a timed-out wait as unavailable, and a finished task by its result; returns the
/// resolution with the telemetry records to emit, in order.
pub fn resolve<R>(wait: PreparationWait<R>, times: ResolveTimes) -> (r: (SessionStartupPreparationResolution<R>, Vec<StartupTelemetry>))
    ensures
        spec_resolve(wait, times, r.0, r.1@),
{
    let mut records: Vec<StartupTelemetry> = Vec::new();
    let resolution = match wait {
        PreparationWait::Cancelled => {
            records.push(StartupTelemetry::ResolvePhase { duration_ms: times.resolve_elapsed_ms, status: TelemetryStatus::Cancelled });
            records.push(StartupTelemetry::Duration {
                metric: StartupMetric::AgeAtFirstTurn,
                duration_ms: times.age_at_first_turn_ms,
                status: TelemetryStatus::Cancelled,
            });
            records.push(StartupTelemetry::Duration {
                metric: StartupMetric::PreparationDuration,
                duration_ms: times.preparation_elapsed_ms,
                status: TelemetryStatus::Cancelled,
            });
            return (SessionStartupPreparationResolution::Cancelled, records);
        },
        PreparationWait::TimedOut => SessionStartupPreparationResolution::Unavailable {
            status: UnavailableStatus::TimedOut,
            preparation_duration_ms: Some(times.preparation_elapsed_ms),
        },
        PreparationWait::Joined(result) => resolution_from_join_result(result, times.preparation_elapsed_ms),
    };
    match resolution {
        SessionStartupPreparationResolution::Cancelled => {
            records.push(StartupTelemetry::ResolvePhase { duration_ms: times.resolve_elapsed_ms, status: TelemetryStatus::Cancelled });
            (SessionStartupPreparationResolution::Cancelled, records)
        },
        SessionStartupPreparationResolution::Ready(runtime) => {
            records.push(StartupTelemetry::ResolvePhase { duration_ms: times.resolve_elapsed_ms, status: TelemetryStatus::Ready });
            records.push(StartupTelemetry::Duration {
                metric: StartupMetric::AgeAtFirstTurn,
                duration_ms: times.age_at_first_turn_ms,
                status: TelemetryStatus::Consumed,
            });
            (SessionStartupPreparationResolution::Ready(runtime), records)
        },
        SessionStartupPreparationResolution::Unavailable { status, preparation_duration_ms } => {
            let label = TelemetryStatus::Unavailable(status);
            records.push(StartupTelemetry::ResolvePhase { duration_ms: times.resolve_elapsed_ms, status: label });
            records.push(StartupTelemetry::Duration {
                metric: StartupMetric::AgeAtFirstTurn,
                duration_ms: times.age_at_first_turn_ms,
                status: label,
            });
            if let Some(duration_ms) = preparation_duration_ms {
                records.push(StartupTelemetry::Duration { metric: StartupMetric::PreparationDuration, duration_ms, status: label });
            }
            (SessionStartupPreparationResolution::Unavailable { status, preparation_duration_ms }, records)
        },
    }
}

/// The resolution when no startup preparation was scheduled.
pub fn not_scheduled<R>() -> (r: SessionStartupPreparationResolution<R>)
    ensures
        r == (SessionStartupPreparationResolution::<R>::Unavailable {
            status: UnavailableStatus::NotScheduled,
            preparation_duration_ms: None,
        }),
{
    SessionStartupPreparationResolution::Unavailable { status: UnavailableStatus::NotScheduled, preparation_duration_ms: None }
}

/// The status of a finished preparation task, as the total-preparation telemetry records it.
pub fn preparation_total_status(prepared: bool) -> (r: TelemetryStatus)
    ensures
        r == (if prepared { TelemetryStatus::Ready } else { TelemetryStatus::Unavailable(UnavailableStatus::Failed) }),
{
    if prepared { TelemetryStatus::Ready } else { TelemetryStatus::Unavailable(UnavailableStatus::Failed) }
}

} // verus!
