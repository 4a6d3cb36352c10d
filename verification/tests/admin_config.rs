use hermes_rs::admin::{list_endpoints, test_template};
use hermes_rs::config::{
    default_enable_metrics, default_retry_attempts, default_retry_delay_ms, validate_config,
    AppSettings, Config, Target, WebhookRegister,
};
use hermes_rs::health::{health_body, ready_body};
use hermes_rs::json::json_to_template_data;
use serde_json::Value;

fn register(endpoint: &str, method: &str, url: &str, template: &str) -> WebhookRegister {
    WebhookRegister {
        endpoint: endpoint.to_string(),
        method: method.to_string(),
        target: Target {
            url: url.to_string(),
            method: "POST".to_string(),
            headers: Vec::new(),
            timeout_seconds: None,
        },
        template: template.to_string(),
    }
}

fn config_of(registers: Vec<WebhookRegister>) -> Config {
    Config {
        settings: AppSettings::default(),
        registers,
    }
}

#[test]
fn test_json_to_template_data() {
    let data = json_to_template_data("{\"name\":\"John\",\"age\":30}").unwrap();
    let parsed: Value = serde_json::from_str(&data).unwrap();
    let map = parsed.as_object().unwrap();
    assert_eq!(map.get("name").unwrap(), &Value::String("John".to_string()));
    assert_eq!(
        map.get("age").unwrap(),
        &Value::Number(serde_json::Number::from(30))
    );
}

#[test]
fn object_body_passes_through_unchanged() {
    let data = json_to_template_data("{\"name\":\"John\",\"age\":30}").unwrap();
    assert_eq!(data, "{\"name\":\"John\",\"age\":30}");
}

#[test]
fn scalar_body_is_wrapped_as_data_object() {
    assert_eq!(json_to_template_data("42").unwrap(), "{\"data\":42}");
    assert_eq!(json_to_template_data("[1,2,3]").unwrap(), "{\"data\":[1,2,3]}");
    assert_eq!(json_to_template_data("null").unwrap(), "{\"data\":null}");
}

#[test]
fn invalid_body_reports_parser_message() {
    let err = json_to_template_data("not json").unwrap_err();
    assert!(!err.is_empty());
}

#[test]
fn settings_defaults_match_schema() {
    assert_eq!(default_retry_attempts(), 3);
    assert_eq!(default_retry_delay_ms(), 1000);
    assert!(!default_enable_metrics());
    let s = AppSettings::default();
    assert_eq!(s.retry_attempts, 3);
    assert_eq!(s.retry_delay_ms, 1000);
    assert!(!s.enable_metrics);
}

#[test]
fn valid_config_validates() {
    let cfg = config_of(vec![register("/a", "POST", "http://t.example", "{{x}}")]);
    assert!(validate_config(&cfg).is_ok());
}

#[test]
fn endpoint_without_slash_is_rejected() {
    let cfg = config_of(vec![
        register("/ok", "POST", "http://t.example", "{{x}}"),
        register("bad", "POST", "http://t.example", "{{x}}"),
    ]);
    assert_eq!(
        validate_config(&cfg).unwrap_err(),
        "Register 1: endpoint must start with '/'"
    );
}

#[test]
fn invalid_inbound_method_is_rejected() {
    let cfg = config_of(vec![register("/a", "FETCH", "http://t.example", "{{x}}")]);
    assert_eq!(
        validate_config(&cfg).unwrap_err(),
        "Register 0: invalid HTTP method 'FETCH'"
    );
}

#[test]
fn lower_case_inbound_method_is_accepted() {
    let cfg = config_of(vec![register("/a", "put", "http://t.example", "{{x}}")]);
    assert!(validate_config(&cfg).is_ok());
}

#[test]
fn empty_target_url_is_rejected() {
    let cfg = config_of(vec![register("/a", "GET", "", "{{x}}")]);
    assert_eq!(
        validate_config(&cfg).unwrap_err(),
        "Register 0: target URL cannot be empty"
    );
}

#[test]
fn bad_template_is_rejected_with_its_error() {
    let cfg = config_of(vec![register("/a", "GET", "http://t.example", "{{#if}")]);
    let err = validate_config(&cfg).unwrap_err();
    assert!(err.starts_with("Register 0: template error: "));
}

#[test]
fn template_dry_run_renders_first_match() {
    let cfg = config_of(vec![
        register("/a", "POST", "http://t.example", "{{x}}"),
        register("/a", "POST", "http://t.example", "{{y}}"),
    ]);
    let probe = test_template(&cfg, "/a", "{\"x\":5,\"y\":6}").unwrap();
    assert_eq!(probe.rendered, "5");
    assert!(probe.output_error.is_none());
}

#[test]
fn template_dry_run_reports_invalid_output() {
    let cfg = config_of(vec![register("/a", "POST", "http://t.example", "{{x}} {{x}}")]);
    let probe = test_template(&cfg, "/a", "{\"x\":5}").unwrap();
    assert_eq!(probe.rendered, "5 5");
    assert!(probe.output_error.is_some());
}

#[test]
fn template_dry_run_unknown_endpoint_fails() {
    let cfg = config_of(vec![register("/a", "POST", "http://t.example", "{{x}}")]);
    assert_eq!(
        test_template(&cfg, "/b", "{\"x\":5}").unwrap_err(),
        "Endpoint '/b' not found"
    );
}

#[test]
fn template_dry_run_wraps_scalar_payload() {
    let cfg = config_of(vec![register("/a", "POST", "http://t.example", "{{data}}")]);
    let probe = test_template(&cfg, "/a", "42").unwrap();
    assert_eq!(probe.rendered, "42");
    assert!(probe.output_error.is_none());
}

#[test]
fn endpoint_listing_is_aligned() {
    let cfg = config_of(vec![
        register("/orders", "POST", "http://t.example/orders", "{{x}}"),
        register("/a-very-long-endpoint-name-indeed", "get", "http://t.example/l", "{{x}}"),
    ]);
    let listing = list_endpoints(&cfg);
    let lines: Vec<&str> = listing.lines().collect();
    assert_eq!(lines.len(), 4);
    assert_eq!(lines[0], "METHOD   ENDPOINT                       TARGET   URL");
    assert_eq!(lines[1], "-".repeat(80));
    assert_eq!(
        lines[2],
        "POST     /orders                        POST     http://t.example/orders"
    );
    assert_eq!(
        lines[3],
        "get      /a-very-long-endpoint-name-indeed POST     http://t.example/l"
    );
}

#[test]
fn health_body_is_exact() {
    assert_eq!(
        health_body(1700000000, "0.1.0"),
        "{\"service\":\"hermes-rs\",\"status\":\"healthy\",\"timestamp\":1700000000,\"version\":\"0.1.0\"}"
    );
    let parsed: Value = serde_json::from_str(&health_body(0, "1.2.3")).unwrap();
    assert_eq!(parsed.get("status").unwrap(), &Value::String("healthy".to_string()));
}

#[test]
fn ready_body_is_exact() {
    assert_eq!(ready_body(), "{\"checks\":{\"config\":\"ok\"},\"status\":\"ready\"}");
    let parsed: Value = serde_json::from_str(&ready_body()).unwrap();
    assert!(parsed.get("checks").unwrap().is_object());
}
