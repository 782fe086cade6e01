use tachyon::retry::after_recovery;
use tachyon::retry::handle_retryable_model_stream_error;
use tachyon::retry::ModelStreamRequest;
use tachyon::retry::ModelStreamRetryState;
use tachyon::retry::RetryAction;
use tachyon::retry::StreamErrorFacts;
use tachyon::retry::INITIAL_CONNECTION_RETRY_DELAY_MS;
use tachyon::retry::MAX_CONNECTION_RETRY_DELAY_MS;

fn facts(connection_failed: bool) -> StreamErrorFacts {
    StreamErrorFacts {
        unbounded_connection_retries: true,
        connection_failed,
        internal_session: false,
        amazon_bedrock_provider: false,
    }
}

#[test]
fn default_state_starts_with_initial_connection_delay() {
    let state = ModelStreamRetryState::default();
    assert_eq!(state.retries, 0);
    assert_eq!(state.connection_retries, 0);
    assert_eq!(state.connection_retry_delay_ms, INITIAL_CONNECTION_RETRY_DELAY_MS);
}

#[test]
fn connection_failures_wait_with_doubling_capped_delay_without_spending_budget() {
    let mut state = ModelStreamRetryState::default();
    let mut delays = Vec::new();
    for _ in 0..6 {
        match handle_retryable_model_stream_error(&mut state, 3, ModelStreamRequest::Sampling, facts(true), true) {
            RetryAction::WaitForNetwork { delay_ms, .. } => delays.push(delay_ms),
            other => panic!("unexpected action {other:?}"),
        }
    }
    assert_eq!(delays, vec![5000, 10000, 20000, 40000, 60000, 60000]);
    assert_eq!(state.retries, 0);
    assert_eq!(state.connection_retries, 6);
    assert_eq!(state.connection_retry_delay_ms, MAX_CONNECTION_RETRY_DELAY_MS);
}

#[test]
fn compaction_and_bedrock_connection_failures_use_the_budget() {
    let mut state = ModelStreamRetryState::default();
    let action = handle_retryable_model_stream_error(&mut state, 2, ModelStreamRequest::RemoteCompactionV2, facts(true), false);
    assert_eq!(action, RetryAction::Retry { retry_count: 1, notify: true });
    let bedrock = StreamErrorFacts { amazon_bedrock_provider: true, ..facts(true) };
    let action = handle_retryable_model_stream_error(&mut state, 2, ModelStreamRequest::Sampling, bedrock, false);
    assert_eq!(action, RetryAction::Retry { retry_count: 2, notify: true });
}

#[test]
fn budgeted_retries_suppress_only_the_first_notification_then_try_recovery() {
    let mut state = ModelStreamRetryState::default();
    assert_eq!(
        handle_retryable_model_stream_error(&mut state, 2, ModelStreamRequest::Sampling, facts(false), true),
        RetryAction::Retry { retry_count: 1, notify: false }
    );
    assert_eq!(
        handle_retryable_model_stream_error(&mut state, 2, ModelStreamRequest::Sampling, facts(false), true),
        RetryAction::Retry { retry_count: 2, notify: true }
    );
    assert_eq!(
        handle_retryable_model_stream_error(&mut state, 2, ModelStreamRequest::Sampling, facts(false), true),
        RetryAction::TryRecovery
    );
    let mut recovered = state;
    assert_eq!(after_recovery(&mut recovered, 2, true, true), RetryAction::Recovered);
    assert_eq!(recovered.retries, 0);
    assert_eq!(after_recovery(&mut state, 2, true, false), RetryAction::GiveUp);
    assert_eq!(state.retries, 2);
}
