use task_supervisor::database::models::Monitor;
use task_supervisor::monitor::api_monitor::{
    ApiCheckConfig, ApiEvent, ApiMonitor, ApiStep, HeaderField, HttpMethod, TargetFields,
    DEFAULT_TIMEOUT_SECS, PREVIEW_BYTES,
};
use task_supervisor::monitor::CheckOutcome;

fn api_monitor(target: &str, expected: Option<&str>) -> Monitor {
    Monitor {
        id: "m-1".to_string(),
        name: "Backend".to_string(),
        icon: None,
        monitor_type: "api".to_string(),
        target: target.to_string(),
        check_interval: 30,
        expected_result: expected.map(|s| s.to_string()),
        alert_on_failure: true,
        is_active: true,
        last_check_time: None,
        last_status: None,
        folder_id: None,
        position: 0,
        created_at: 0,
    }
}

#[test]
fn test_api_check_config_get() {
    let config = ApiCheckConfig::get("https://example.com".to_string());
    assert_eq!(config.method, "GET");
    assert_eq!(config.url, "https://example.com");
    assert!(config.body.is_none());
}

#[test]
fn test_api_check_config_post() {
    let config = ApiCheckConfig::post(
        "https://example.com".to_string(),
        r#"{"key":"value"}"#.to_string(),
    );
    assert_eq!(config.method, "POST");
    assert!(config.body.is_some());
}

#[test]
fn builders_fill_every_field() {
    let config = ApiCheckConfig::get("https://example.com".to_string());
    assert_eq!(config.headers, None);
    assert_eq!(config.expected_content, None);
    assert_eq!(config.timeout_secs, 10);
    let config = ApiCheckConfig::post("https://example.com/x".to_string(), "payload".to_string());
    assert_eq!(config.url, "https://example.com/x");
    assert_eq!(config.body.as_deref(), Some("payload"));
    assert_eq!(config.headers, None);
    assert_eq!(config.expected_content, None);
    assert_eq!(config.timeout_secs, DEFAULT_TIMEOUT_SECS);
}

#[test]
fn bare_url_target_is_a_get_request() {
    let config = ApiCheckConfig::for_monitor(&api_monitor("https://example.com/health", Some("ok")));
    assert_eq!(config.url, "https://example.com/health");
    assert_eq!(config.method, "GET");
    assert_eq!(config.headers, None);
    assert_eq!(config.body, None);
    assert_eq!(config.expected_content.as_deref(), Some("ok"));
    assert_eq!(config.timeout_secs, 10);
}

#[test]
fn json_target_is_read_member_by_member() {
    let target = r#"{
        "url": "https://example.com/api",
        "method": "post",
        "headers": [
            {"key": "Authorization", "value": "Bearer abc"},
            {"key": "X-Broken"},
            {"key": 7, "value": "seven"},
            "not an object",
            {"key": "Accept", "value": "application/json", "extra": true}
        ],
        "body": "{\"ping\":1}"
    }"#;
    let config = ApiCheckConfig::for_monitor(&api_monitor(target, None));
    assert_eq!(config.url, "https://example.com/api");
    assert_eq!(config.method, "post");
    assert_eq!(
        config.headers,
        Some(vec![
            ("Authorization".to_string(), "Bearer abc".to_string()),
            ("Accept".to_string(), "application/json".to_string()),
        ])
    );
    assert_eq!(config.body.as_deref(), Some("{\"ping\":1}"));
    assert_eq!(config.expected_content, None);
    assert_eq!(config.timeout_secs, 10);
}

#[test]
fn json_target_defaults() {
    // An object without the members: empty URL, GET, nothing else.
    let config = ApiCheckConfig::for_monitor(&api_monitor("{}", Some("up")));
    assert_eq!(config.url, "");
    assert_eq!(config.method, "GET");
    assert_eq!(config.headers, None);
    assert_eq!(config.body, None);
    assert_eq!(config.expected_content.as_deref(), Some("up"));
    // Members of the wrong type count as missing.
    let config = ApiCheckConfig::for_monitor(&api_monitor(
        r#"{"url": 1, "method": null, "headers": {}, "body": ["x"]}"#,
        None,
    ));
    assert_eq!(config.url, "");
    assert_eq!(config.method, "GET");
    assert_eq!(config.headers, None);
    assert_eq!(config.body, None);
    // An empty array of headers is an empty list, not a missing one.
    let config = ApiCheckConfig::for_monitor(&api_monitor(r#"{"headers": []}"#, None));
    assert_eq!(config.headers, Some(Vec::new()));
    // Any JSON value is JSON: a number has no members.
    let config = ApiCheckConfig::for_monitor(&api_monitor("8080", None));
    assert_eq!(config.url, "");
    assert_eq!(config.method, "GET");
    // What is not JSON is a URL.
    let config = ApiCheckConfig::for_monitor(&api_monitor("{url: x}", None));
    assert_eq!(config.url, "{url: x}");
}

#[test]
fn from_fields_keeps_complete_headers_only() {
    let fields = TargetFields {
        url: Some("http://h".to_string()),
        method: None,
        headers: Some(vec![
            HeaderField { key: None, value: Some("v".to_string()) },
            HeaderField { key: Some("a".to_string()), value: Some("1".to_string()) },
            HeaderField { key: Some("b".to_string()), value: None },
            HeaderField { key: None, value: None },
            HeaderField { key: Some("c".to_string()), value: Some("".to_string()) },
        ]),
        body: None,
    };
    let config = ApiCheckConfig::from_fields("ignored", &Some("x".to_string()), Some(fields));
    assert_eq!(config.url, "http://h");
    assert_eq!(config.method, "GET");
    assert_eq!(
        config.headers,
        Some(vec![
            ("a".to_string(), "1".to_string()),
            ("c".to_string(), "".to_string()),
        ])
    );
    assert_eq!(config.expected_content.as_deref(), Some("x"));
    let config = ApiCheckConfig::from_fields("http://bare", &None, None);
    assert_eq!(config.url, "http://bare");
    assert_eq!(config.method, "GET");
    assert_eq!(config.headers, None);
}

#[test]
fn method_names_are_read_in_any_case() {
    assert_eq!(HttpMethod::parse("GET"), HttpMethod::Get);
    assert_eq!(HttpMethod::parse("get"), HttpMethod::Get);
    assert_eq!(HttpMethod::parse("post"), HttpMethod::Post);
    assert_eq!(HttpMethod::parse("Put"), HttpMethod::Put);
    assert_eq!(HttpMethod::parse("dElEtE"), HttpMethod::Delete);
    assert_eq!(HttpMethod::parse("patch"), HttpMethod::Patch);
    // Unknown names fall back to GET.
    assert_eq!(HttpMethod::parse("HEAD"), HttpMethod::Get);
    assert_eq!(HttpMethod::parse(""), HttpMethod::Get);
    assert_eq!(HttpMethod::parse(" POST"), HttpMethod::Get);
    // `named` takes the name as it stands.
    assert_eq!(HttpMethod::named("POST"), HttpMethod::Post);
    assert_eq!(HttpMethod::named("post"), HttpMethod::Get);
}

#[test]
fn request_carries_the_configuration() {
    let probe = ApiMonitor::new();
    let mut config = ApiCheckConfig::post("https://e.org".to_string(), "b".to_string());
    config.method = "patch".to_string();
    config.headers = Some(vec![("k".to_string(), "v".to_string())]);
    config.timeout_secs = 4;
    let request = probe.request(&config);
    assert_eq!(request.method, HttpMethod::Patch);
    assert_eq!(request.url, "https://e.org");
    assert_eq!(request.headers, vec![("k".to_string(), "v".to_string())]);
    assert_eq!(request.body.as_deref(), Some("b"));
    assert_eq!(request.timeout_secs, 4);
    let request = probe.request(&ApiCheckConfig::get("u".to_string()));
    assert_eq!(request.method, HttpMethod::Get);
    assert!(request.headers.is_empty());
    assert_eq!(request.body, None);
    assert_eq!(request.timeout_secs, 10);
}

#[test]
fn status_alone_decides_without_expected_content() {
    let probe = ApiMonitor::new();
    let config = ApiCheckConfig::get("u".to_string());
    for status in [200u16, 201, 204, 299] {
        assert_eq!(
            probe.check_api(&config, &ApiEvent::Status(status)),
            ApiStep::Done(CheckOutcome::Healthy)
        );
    }
    for status in [0u16, 100, 199, 300, 301, 404, 500, 503, 65535] {
        assert_eq!(
            probe.check_api(&config, &ApiEvent::Status(status)),
            ApiStep::Done(CheckOutcome::Unhealthy)
        );
    }
    // A body that comes anyway changes nothing.
    assert_eq!(
        probe.check_api(&config, &ApiEvent::Body("anything".to_string())),
        ApiStep::Done(CheckOutcome::Healthy)
    );
}

#[test]
fn expected_content_asks_for_the_body() {
    let probe = ApiMonitor::new();
    let mut config = ApiCheckConfig::get("u".to_string());
    config.expected_content = Some("\"status\":\"ok\"".to_string());
    assert_eq!(probe.check_api(&config, &ApiEvent::Status(200)), ApiStep::ReadBody);
    // A status outside 2xx is unhealthy at once, whatever is expected.
    assert_eq!(
        probe.check_api(&config, &ApiEvent::Status(500)),
        ApiStep::Done(CheckOutcome::Unhealthy)
    );
    assert_eq!(
        probe.check_api(&config, &ApiEvent::Body("{\"status\":\"ok\"}".to_string())),
        ApiStep::Done(CheckOutcome::Healthy)
    );
    assert_eq!(
        probe.check_api(&config, &ApiEvent::Body("{\"status\":\"OK\"}".to_string())),
        ApiStep::Done(CheckOutcome::Unhealthy)
    );
    assert_eq!(
        probe.check_api(&config, &ApiEvent::Body(String::new())),
        ApiStep::Done(CheckOutcome::Unhealthy)
    );
    // The empty text is contained in every body.
    config.expected_content = Some(String::new());
    assert_eq!(probe.check_api(&config, &ApiEvent::Status(204)), ApiStep::ReadBody);
    assert_eq!(
        probe.check_api(&config, &ApiEvent::Body(String::new())),
        ApiStep::Done(CheckOutcome::Healthy)
    );
}

#[test]
fn transport_failures_are_errors() {
    let probe = ApiMonitor::new();
    let config = ApiCheckConfig::get("u".to_string());
    assert_eq!(
        probe.check_api(&config, &ApiEvent::BuildFailed("no tls".to_string())),
        ApiStep::Done(CheckOutcome::Failed("Failed to build HTTP client: no tls".to_string()))
    );
    assert_eq!(
        probe.check_api(&config, &ApiEvent::SendFailed("connection refused".to_string())),
        ApiStep::Done(CheckOutcome::Failed("Request failed: connection refused".to_string()))
    );
    assert_eq!(
        probe.check_api(&config, &ApiEvent::BodyFailed("reset".to_string())),
        ApiStep::Done(CheckOutcome::Failed("Failed to read response body: reset".to_string()))
    );
}

#[test]
fn response_info_shows_short_bodies_whole() {
    let probe = ApiMonitor::new();
    assert_eq!(
        probe.get_response_info("200 OK", Some("pong")),
        "Status: 200 OK | Body preview: pong"
    );
    assert_eq!(
        probe.get_response_info("204 No Content", Some("")),
        "Status: 204 No Content | Body preview: "
    );
    assert_eq!(
        probe.get_response_info("502 Bad Gateway", None),
        "Status: 502 Bad Gateway | Body preview: <unable to read body>"
    );
    let exactly = "x".repeat(PREVIEW_BYTES);
    assert_eq!(
        probe.get_response_info("200 OK", Some(&exactly)),
        format!("Status: 200 OK | Body preview: {}", exactly)
    );
}

#[test]
fn response_info_cuts_long_bodies_after_100_bytes() {
    let probe = ApiMonitor::new();
    let long = "0123456789".repeat(11);
    assert_eq!(
        probe.get_response_info("200 OK", Some(&long)),
        format!("Status: 200 OK | Body preview: {}...", "0123456789".repeat(10))
    );
    // Two-byte characters: 100 bytes are 50 characters.
    let wide = "é".repeat(60);
    assert!(wide.is_char_boundary(PREVIEW_BYTES));
    assert_eq!(
        probe.get_response_info("200 OK", Some(&wide)),
        format!("Status: 200 OK | Body preview: {}...", "é".repeat(50))
    );
}

#[test]
fn preview_is_refused_inside_a_character() {
    let probe = ApiMonitor::new();
    // 99 one-byte characters and a two-byte one: byte 100 is inside it.
    let split = format!("{}é-and-more", "x".repeat(99));
    assert!(!split.is_char_boundary(PREVIEW_BYTES));
    assert!(!ApiMonitor::preview_fits(&split));
    assert_eq!(probe.response_info_checked("200 OK", Some(&split)), None);
    // Short bodies and clean cuts are fine.
    assert!(ApiMonitor::preview_fits(""));
    assert!(ApiMonitor::preview_fits(&"x".repeat(100)));
    assert!(ApiMonitor::preview_fits(&"x".repeat(101)));
    assert!(ApiMonitor::preview_fits(&format!("{}é", "x".repeat(98))));
    assert_eq!(
        probe.response_info_checked("200 OK", Some("pong")),
        Some("Status: 200 OK | Body preview: pong".to_string())
    );
    assert_eq!(
        probe.response_info_checked("500 Internal Server Error", None),
        Some("Status: 500 Internal Server Error | Body preview: <unable to read body>".to_string())
    );
    let long = "ab".repeat(70);
    assert_eq!(
        probe.response_info_checked("200 OK", Some(&long)),
        Some(format!("Status: 200 OK | Body preview: {}...", "ab".repeat(50)))
    );
}
