//! Provider-neutral model-stream retry policy.
//!
//! The policy is a state machine: given the retry state and the facts of one retryable stream
//! error, it decides whether to wait for the network, try a backend-private recovery, retry
//! after a delay, or give up, and how the state moves. The caller performs the waiting, the
//! notifications and the recovery itself, and reports the recovery's outcome back.

use vstd::prelude::*;

verus! {

/// Delay before the first retry of a failed connection, in milliseconds.
pub const INITIAL_CONNECTION_RETRY_DELAY_MS: u64 = 5000;
/// Largest delay between retries of a failed connection, in milliseconds.
pub const MAX_CONNECTION_RETRY_DELAY_MS: u64 = 60000;

/// The kind of model stream being retried.
#[derive(Debug, Clone, Copy, PartialEq, Eq, Structural)]
pub enum ModelStreamRequest {
    Sampling,
    RemoteCompactionV2,
}

/// Retry counters of one model stream.
#[derive(Debug, Clone, Copy, PartialEq, Eq, Structural)]
pub struct ModelStreamRetryState {
    pub retries: u64,
    pub connection_retries: u64,
    /// Delay before the next connection retry, in milliseconds.
    pub connection_retry_delay_ms: u64,
}

impl Default for ModelStreamRetryState {
    fn default() -> (r: Self)
        ensures
            r.retries == 0,
            r.connection_retries == 0,
            r.connection_retry_delay_ms == INITIAL_CONNECTION_RETRY_DELAY_MS,
    {
        ModelStreamRetryState {
            retries: 0,
            connection_retries: 0,
            connection_retry_delay_ms: INITIAL_CONNECTION_RETRY_DELAY_MS,
        }
    }
}

/// What the policy needs to know of one retryable stream error and its context.
#[derive(Debug, Clone, Copy, PartialEq, Eq, Structural)]
pub struct StreamErrorFacts {
    /// Whether unbounded connection retries are enabled for the session.
    pub unbounded_connection_retries: bool,
    /// Whether the error is a failure to connect.
    pub connection_failed: bool,
    /// Whether the session is an internal one.
    pub internal_session: bool,
    /// Whether the provider is Amazon Bedrock.
    pub amazon_bedrock_provider: bool,
}

/// What the caller does next.
#[derive(Debug, Clone, Copy, PartialEq, Eq, Structural)]
pub enum RetryAction {
    /// Tell the user the stream is reconnecting, wait `delay_ms`, then retry; the connection
    /// retry counter is now `connection_retries`.
    WaitForNetwork { delay_ms: u64, connection_retries: u64 },
    /// The retry budget is spent: try the backend-private recovery and report its outcome with
    /// `after_recovery`.
    TryRecovery,
    /// Warn that the backend recovered, and retry at once.
    Recovered,
    /// Retry attempt `retry_count` of `max_retries`: wait the error's own delay, or the backoff
    /// for that attempt, then retry; `notify` says whether the user hears of it.
    Retry { retry_count: u64, notify: bool },
    /// Return the error to the caller.
    GiveUp,
}

/// Whether a connection failure waits for the network without spending the retry budget.
pub open spec fn waits_for_network(request: ModelStreamRequest, facts: StreamErrorFacts) -> bool {
    &&& facts.unbounded_connection_retries
    &&& request == ModelStreamRequest::Sampling
    &&& facts.connection_failed
    &&& !facts.internal_session
    &&& !facts.amazon_bedrock_provider
}

/// The next connection-retry delay: doubled, saturating, and at most the maximum.
pub open spec fn next_connection_delay(delay: u64) -> u64 {
    let doubled = if delay * 2 > u64::MAX { u64::MAX as int } else { delay * 2 };
    if doubled < MAX_CONNECTION_RETRY_DELAY_MS { doubled as u64 } else { MAX_CONNECTION_RETRY_DELAY_MS }
}

/// The retry decision of the budgeted path, once recovery is out of the question.
pub open spec fn spec_budgeted_retry(
    state: ModelStreamRetryState,
    max_retries: u64,
    suppress_first_retry_notification: bool,
    next: ModelStreamRetryState,
    action: RetryAction,
) -> bool {
    if state.retries < max_retries {
        &&& next == ModelStreamRetryState { retries: (state.retries + 1) as u64, ..state }
        &&& action == RetryAction::Retry {
            retry_count: (state.retries + 1) as u64,
            notify: state.retries + 1 > 1 || !suppress_first_retry_notification,
        }
    } else {
        next == state && action == RetryAction::GiveUp
    }
}

/// The decision on one retryable stream error.
pub open spec fn spec_decide(
    state: ModelStreamRetryState,
    max_retries: u64,
    request: ModelStreamRequest,
    facts: StreamErrorFacts,
    suppress_first_retry_notification: bool,
    next: ModelStreamRetryState,
    action: RetryAction,
) -> bool {
    if waits_for_network(request, facts) {
        let connection_retries = if state.connection_retries == u64::MAX { u64::MAX } else { (state.connection_retries + 1) as u64 };
        &&& next == ModelStreamRetryState {
            connection_retries,
            connection_retry_delay_ms: next_connection_delay(state.connection_retry_delay_ms),
            ..state
        }
        &&& action == RetryAction::WaitForNetwork { delay_ms: state.connection_retry_delay_ms, connection_retries }
    } else if state.retries >= max_retries {
        next == state && action == RetryAction::TryRecovery
    } else {
        spec_budgeted_retry(state, max_retries, suppress_first_retry_notification, next, action)
    }
}

/// Decides what to do about one retryable stream error, and moves the retry state.
pub fn handle_retryable_model_stream_error(
    retry_state: &mut ModelStreamRetryState,
    max_retries: u64,
    request: ModelStreamRequest,
    facts: StreamErrorFacts,
    suppress_first_retry_notification: bool,
) -> (action: RetryAction)
    ensures
        spec_decide(*old(retry_state), max_retries, request, facts, suppress_first_retry_notification, *final(retry_state), action),
{
    let sampling = match request {
        ModelStreamRequest::Sampling => true,
        ModelStreamRequest::RemoteCompactionV2 => false,
    };
    if facts.unbounded_connection_retries && sampling && facts.connection_failed && !facts.internal_session
        && !facts.amazon_bedrock_provider {
        let retry_delay = retry_state.connection_retry_delay_ms;
        retry_state.connection_retries = retry_state.connection_retries.saturating_add(1);
        let doubled = if retry_delay > u64::MAX / 2 { u64::MAX } else { retry_delay * 2 };
        retry_state.connection_retry_delay_ms = if doubled < MAX_CONNECTION_RETRY_DELAY_MS {
            doubled
        } else {
            MAX_CONNECTION_RETRY_DELAY_MS
        };
        return RetryAction::WaitForNetwork { delay_ms: retry_delay, connection_retries: retry_state.connection_retries };
    }
    if retry_state.retries >= max_retries {
        return RetryAction::TryRecovery;
    }
    budgeted_retry(retry_state, max_retries, suppress_first_retry_notification)
}

fn budgeted_retry(retry_state: &mut ModelStreamRetryState, max_retries: u64, suppress_first_retry_notification: bool) -> (action: RetryAction)
    ensures
        spec_budgeted_retry(*old(retry_state), max_retries, suppress_first_retry_notification, *final(retry_state), action),
{
    if retry_state.retries < max_retries {
        retry_state.retries = retry_state.retries + 1;
        let retry_count = retry_state.retries;
        let notify = retry_count > 1 || !suppress_first_retry_notification;
        return RetryAction::Retry { retry_count, notify };
    }
    RetryAction::GiveUp
}

/// The decision once the backend reported whether its recovery succeeded.
pub open spec fn spec_after_recovery(
    state: ModelStreamRetryState,
    max_retries: u64,
    suppress_first_retry_notification: bool,
    recovered: bool,
    next: ModelStreamRetryState,
    action: RetryAction,
) -> bool {
    if recovered {
        next == ModelStreamRetryState { retries: 0, ..state } && action == RetryAction::Recovered
    } else {
        spec_budgeted_retry(state, max_retries, suppress_first_retry_notification, next, action)
    }
}

/// Completes a `TryRecovery` decision with the outcome of the backend's recovery: a recovered
/// backend restarts the retry budget; otherwise the budget decides.
pub fn after_recovery(
    retry_state: &mut ModelStreamRetryState,
    max_retries: u64,
    suppress_first_retry_notification: bool,
    recovered: bool,
) -> (action: RetryAction)
    ensures
        spec_after_recovery(*old(retry_state), max_retries, suppress_first_retry_notification, recovered, *final(retry_state), action),
{
    if recovered {
        retry_state.retries = 0;
        return RetryAction::Recovered;
    }
    budgeted_retry(retry_state, max_retries, suppress_first_retry_notification)
}

/// Every budgeted retry spends one attempt and never exceeds the budget; connection waits never
/// spend the budget, and their delay never exceeds the maximum once it has been capped.
pub proof fn lemma_retry_budget_bounded(
    state: ModelStreamRetryState,
    max_retries: u64,
    request: ModelStreamRequest,
    facts: StreamErrorFacts,
    suppress: bool,
    next: ModelStreamRetryState,
    action: RetryAction,
)
    requires
        spec_decide(state, max_retries, request, facts, suppress, next, action),
        state.retries <= max_retries,
    ensures
        next.retries <= max_retries,
        action is Retry ==> next.retries == state.retries + 1 && action->retry_count == next.retries,
        action is WaitForNetwork ==> next.retries == state.retries
            && next.connection_retry_delay_ms <= MAX_CONNECTION_RETRY_DELAY_MS,
        action is GiveUp ==> false,
        action is TryRecovery ==> state.retries == max_retries,
{
}

} // verus!
