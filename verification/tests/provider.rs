use std::time::Duration;

use tachyon::provider::is_azure_responses_provider;
use tachyon::provider::ApiDeployment;
use tachyon::provider::Provider;
use tachyon::provider::RequestCompression;
use tachyon::provider::RequestExecutionPolicy;
use tachyon::provider::RetryConfig;

#[test]
fn deployment_builds_operation_url_with_query_defaults() {
    let deployment = ApiDeployment {
        base_url: "https://example.com/v1/".to_string(),
        query_params: Some(vec![(
            "api-version".to_string(),
            "2025-04-01-preview".to_string(),
        )]),
    };

    assert_eq!(
        deployment.url_for_path("/responses"),
        "https://example.com/v1/responses?api-version=2025-04-01-preview"
    );
}

#[test]
fn deployment_converts_http_scheme_for_websocket_operation() {
    let deployment = ApiDeployment {
        base_url: "https://example.com/v1".to_string(),
        query_params: None,
    };

    assert_eq!(
        deployment
            .websocket_url_for_path("responses")
            .expect("websocket URL should build")
            .as_str(),
        "wss://example.com/v1/responses"
    );
}

#[test]
fn detects_azure_responses_base_urls() {
    let positive_cases = [
        "https://foo.openai.azure.com/openai",
        "https://foo.openai.azure.us/openai/deployments/bar",
        "https://foo.cognitiveservices.azure.cn/openai",
        "https://foo.aoai.azure.com/openai",
        "https://foo.openai.azure-api.net/openai",
        "https://foo.z01.azurefd.net/",
    ];

    for base_url in positive_cases {
        assert!(
            is_azure_responses_provider("test", Some(base_url)),
            "expected {base_url} to be detected as Azure"
        );
    }

    assert!(is_azure_responses_provider("Azure", Some("https://example.com")));

    let negative_cases = [
        "https://api.openai.com/v1",
        "https://example.com/openai",
        "https://myproxy.azurewebsites.net/openai",
    ];

    for base_url in negative_cases {
        assert!(
            !is_azure_responses_provider("test", Some(base_url)),
            "expected {base_url} not to be detected as Azure"
        );
    }
}

#[test]
fn azure_detection_ignores_ascii_case_of_name_and_url() {
    assert!(is_azure_responses_provider("AZURE", None));
    assert!(!is_azure_responses_provider("azure-like", None));
    assert!(is_azure_responses_provider("test", Some("https://FOO.OpenAI.Azure.COM/openai")));
    assert!(is_azure_responses_provider("test", Some("https://x.blob.core.WINDOWS.NET/OpenAI")));
    assert!(!is_azure_responses_provider("test", None));
}

#[test]
fn url_joins_base_and_path_with_exactly_one_slash() {
    let deployment = ApiDeployment {
        base_url: "https://example.com/v1///".to_string(),
        query_params: Some(Vec::new()),
    };
    assert_eq!(deployment.url_for_path("//responses"), "https://example.com/v1/responses");
    assert_eq!(deployment.url_for_path(""), "https://example.com/v1");
    assert_eq!(deployment.url_for_path("///"), "https://example.com/v1");
}

#[test]
fn url_joins_several_query_parameters_in_order() {
    let deployment = ApiDeployment {
        base_url: "http://localhost:8080".to_string(),
        query_params: Some(vec![
            ("a".to_string(), "1".to_string()),
            ("b".to_string(), "2".to_string()),
            ("c".to_string(), "3".to_string()),
        ]),
    };
    assert_eq!(deployment.url_for_path("models"), "http://localhost:8080/models?a=1&b=2&c=3");
}

#[test]
fn websocket_url_keeps_other_schemes_and_reports_parse_errors() {
    let plain = ApiDeployment { base_url: "http://example.com".to_string(), query_params: None };
    assert_eq!(plain.websocket_url_for_path("v1/ws").unwrap().as_str(), "ws://example.com/v1/ws");
    let already = ApiDeployment { base_url: "wss://example.com".to_string(), query_params: None };
    assert_eq!(already.websocket_url_for_path("x").unwrap().as_str(), "wss://example.com/x");
    let relative = ApiDeployment { base_url: "not a url".to_string(), query_params: None };
    assert!(relative.websocket_url_for_path("x").is_err());
}

#[test]
fn retry_config_becomes_transport_policy() {
    let config = RetryConfig {
        max_attempts: 4,
        base_delay: Duration::from_millis(250),
        retry_429: true,
        retry_5xx: false,
        retry_transport: true,
    };
    let policy = config.to_policy();
    assert_eq!(policy.max_attempts, 4);
    assert_eq!(policy.base_delay, Duration::from_millis(250));
    assert!(policy.retry_on.retry_429);
    assert!(!policy.retry_on.retry_5xx);
    assert!(policy.retry_on.retry_transport);
}

#[test]
fn provider_builds_request_for_operation_path() {
    let mut headers = http::HeaderMap::new();
    headers.insert("x-test", http::HeaderValue::from_static("1"));
    let provider = Provider {
        name: "openai".to_string(),
        deployment: ApiDeployment {
            base_url: "https://api.example.com/v1/".to_string(),
            query_params: None,
        },
        headers,
        request_policy: RequestExecutionPolicy {
            retry: RetryConfig {
                max_attempts: 1,
                base_delay: Duration::from_millis(1),
                retry_429: false,
                retry_5xx: false,
                retry_transport: false,
            },
            stream_idle_timeout: Duration::from_secs(30),
        },
    };
    let request = provider.build_request(http::Method::POST, "/responses");
    assert_eq!(request.method, http::Method::POST);
    assert_eq!(request.url, "https://api.example.com/v1/responses");
    assert_eq!(request.headers.get("x-test").unwrap(), "1");
    assert!(request.body.is_none());
    assert_eq!(request.compression, RequestCompression::Uncompressed);
    assert!(request.timeout.is_none());
}
