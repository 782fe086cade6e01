use tachyon::startup::not_scheduled;
use tachyon::startup::preparation_total_status;
use tachyon::startup::remaining_preparation_time;
use tachyon::startup::resolution_from_join_result;
use tachyon::startup::resolve;
use tachyon::startup::startup_plan;
use tachyon::startup::PreparationJoinResult;
use tachyon::startup::PreparationWait;
use tachyon::startup::ResolveTimes;
use tachyon::startup::SessionStartupPreparationResolution;
use tachyon::startup::StartupMetric;
use tachyon::startup::StartupTelemetry;
use tachyon::startup::TelemetryStatus;
use tachyon::startup::UnavailableStatus;

const TIMES: ResolveTimes = ResolveTimes { age_at_first_turn_ms: 40, preparation_elapsed_ms: 70, resolve_elapsed_ms: 30 };

#[test]
fn plan_follows_features_and_backend_capability() {
    let plan = startup_plan(true, false, true);
    assert!(!plan.prewarm_code_mode);
    assert!(plan.prepare_turn_runtime);
    assert!(startup_plan(true, true, false).prewarm_code_mode);
    assert!(!startup_plan(true, true, false).prepare_turn_runtime);
}

#[test]
fn remaining_time_saturates_at_zero() {
    assert_eq!(remaining_preparation_time(1000, 300), 700);
    assert_eq!(remaining_preparation_time(1000, 1000), 0);
    assert_eq!(remaining_preparation_time(1000, 5000), 0);
}

#[test]
fn ready_preparation_is_consumed() {
    let (resolution, records) = resolve(PreparationWait::Joined(PreparationJoinResult::Prepared("runtime")), TIMES);
    assert_eq!(resolution, SessionStartupPreparationResolution::Ready("runtime"));
    assert_eq!(
        records,
        vec![
            StartupTelemetry::ResolvePhase { duration_ms: 30, status: TelemetryStatus::Ready },
            StartupTelemetry::Duration { metric: StartupMetric::AgeAtFirstTurn, duration_ms: 40, status: TelemetryStatus::Consumed },
        ]
    );
}

#[test]
fn failures_timeouts_and_cancellation_are_recorded_with_their_status() {
    let (failed, records) = resolve::<()>(PreparationWait::Joined(PreparationJoinResult::Failed), TIMES);
    assert_eq!(failed, SessionStartupPreparationResolution::Unavailable { status: UnavailableStatus::Failed, preparation_duration_ms: None });
    assert_eq!(records.len(), 2);

    let (join_failed, records) = resolve::<()>(PreparationWait::Joined(PreparationJoinResult::JoinFailed), TIMES);
    assert_eq!(
        join_failed,
        SessionStartupPreparationResolution::Unavailable { status: UnavailableStatus::JoinFailed, preparation_duration_ms: Some(70) }
    );
    assert_eq!(
        records[2],
        StartupTelemetry::Duration {
            metric: StartupMetric::PreparationDuration,
            duration_ms: 70,
            status: TelemetryStatus::Unavailable(UnavailableStatus::JoinFailed),
        }
    );

    let (timed_out, records) = resolve::<()>(PreparationWait::TimedOut, TIMES);
    assert_eq!(
        timed_out,
        SessionStartupPreparationResolution::Unavailable { status: UnavailableStatus::TimedOut, preparation_duration_ms: Some(70) }
    );
    assert_eq!(records.len(), 3);

    let (cancelled, records) = resolve::<()>(PreparationWait::Cancelled, TIMES);
    assert_eq!(cancelled, SessionStartupPreparationResolution::Cancelled);
    assert_eq!(
        records,
        vec![
            StartupTelemetry::ResolvePhase { duration_ms: 30, status: TelemetryStatus::Cancelled },
            StartupTelemetry::Duration { metric: StartupMetric::AgeAtFirstTurn, duration_ms: 40, status: TelemetryStatus::Cancelled },
            StartupTelemetry::Duration { metric: StartupMetric::PreparationDuration, duration_ms: 70, status: TelemetryStatus::Cancelled },
        ]
    );
}

#[test]
fn join_results_and_labels() {
    assert_eq!(resolution_from_join_result(PreparationJoinResult::Prepared(7), 9), SessionStartupPreparationResolution::Ready(7));
    assert_eq!(
        not_scheduled::<()>(),
        SessionStartupPreparationResolution::Unavailable { status: UnavailableStatus::NotScheduled, preparation_duration_ms: None }
    );
    assert_eq!(UnavailableStatus::TimedOut.as_str(), "timed_out");
    assert_eq!(UnavailableStatus::JoinFailed.as_str(), "join_failed");
    assert_eq!(UnavailableStatus::NotScheduled.as_str(), "not_scheduled");
    assert_eq!(UnavailableStatus::Failed.as_str(), "failed");
    assert_eq!(preparation_total_status(true), TelemetryStatus::Ready);
    assert_eq!(preparation_total_status(false), TelemetryStatus::Unavailable(UnavailableStatus::Failed));
}
