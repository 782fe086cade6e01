use tachyon::route::ModelTransport;
use tachyon::route::OPENAI_RESPONSES_PROTOCOL_ID;
use tachyon::runtime::ModelClient;
use tachyon::runtime::ModelRuntime;
use tachyon::runtime::FALLBACK_TO_HTTP_WARNING;

#[test]
fn websocket_turns_fall_back_to_http_once_and_keep_their_provider() {
    let runtime = ModelRuntime::from_codex_client(ModelClient { responses_websocket_enabled: true });
    assert!(runtime.startup_preparation_uses_turn_runtime());
    let mut turn = runtime.begin_turn_for_provider("openai");
    assert!(turn.suppress_first_retry_notification());
    let before = turn.route();
    assert_eq!(before.transport(), ModelTransport::WebSocket);
    assert_eq!(before.protocol().id(), OPENAI_RESPONSES_PROTOCOL_ID);
    assert_eq!(before.provider_id().map(|p| p.as_str().to_string()), Some("openai".to_string()));

    assert_eq!(turn.try_recover_after_stream_error(), Some(FALLBACK_TO_HTTP_WARNING));
    let after = turn.route();
    assert_eq!(after.transport(), ModelTransport::Http);
    assert_eq!(after.protocol(), before.protocol());
    assert_eq!(after.provider_id(), before.provider_id());
    assert_eq!(turn.try_recover_after_stream_error(), None);
}

#[test]
fn http_clients_have_nothing_to_recover() {
    let runtime = ModelRuntime::from_codex_client(ModelClient { responses_websocket_enabled: false });
    assert!(!runtime.startup_preparation_uses_turn_runtime());
    let mut turn = runtime.begin_turn();
    assert!(!turn.suppress_first_retry_notification());
    assert_eq!(turn.route().transport(), ModelTransport::Http);
    assert_eq!(turn.route().provider_id(), None);
    assert_eq!(turn.try_recover_after_stream_error(), None);
}
