use hermes_rs::config::{AppSettings, Config, Target, WebhookRegister};
use hermes_rs::dispatch::{
    conclude, debug_reply, prepare, ForwardEvent, HttpMethod, Prepared,
};
use hermes_rs::registry::Registry;

fn target(method: &str) -> Target {
    Target {
        url: "http://upstream.example/api".to_string(),
        method: method.to_string(),
        headers: Vec::new(),
        timeout_seconds: None,
    }
}

fn register(endpoint: &str, template: &str, target_method: &str) -> WebhookRegister {
    WebhookRegister {
        endpoint: endpoint.to_string(),
        method: "POST".to_string(),
        target: target(target_method),
        template: template.to_string(),
    }
}

fn config_of(registers: Vec<WebhookRegister>) -> Config {
    Config {
        settings: AppSettings::default(),
        registers,
    }
}

#[test]
fn registered_object_body_forwards_rendered_number() {
    let cfg = config_of(vec![register("/hook", "{{a}}", "POST")]);
    let reg = Registry::build(&cfg).unwrap();
    match prepare(&reg, "/hook", "{\"a\":1}") {
        Prepared::Forward(f) => {
            assert_eq!(f.method, HttpMethod::Post);
            assert_eq!(f.url, "http://upstream.example/api");
            assert_eq!(f.payload, "1");
        }
        Prepared::Reply(r) => panic!("expected a forward, got status {}", r.status),
    }
}

#[test]
fn unregistered_path_is_404_regardless_of_payload() {
    let cfg = config_of(vec![register("/hook", "{{a}}", "POST")]);
    let reg = Registry::build(&cfg).unwrap();
    for body in ["{\"a\":1}", "not json", "", "[1,2,3]"] {
        match prepare(&reg, "/other", body) {
            Prepared::Reply(r) => {
                assert_eq!(r.status, 404);
                assert_eq!(r.body, "{\"error\":\"Endpoint not found\"}");
            }
            Prepared::Forward(_) => panic!("expected a 404 reply"),
        }
    }
}

#[test]
fn non_json_body_is_400() {
    let cfg = config_of(vec![register("/hook", "{{a}}", "POST")]);
    let reg = Registry::build(&cfg).unwrap();
    match prepare(&reg, "/hook", "not json") {
        Prepared::Reply(r) => {
            assert_eq!(r.status, 400);
            assert!(r.body.starts_with("{\"error\":\"Invalid JSON: "));
        }
        Prepared::Forward(_) => panic!("expected a 400 reply"),
    }
}

#[test]
fn template_with_invalid_json_output_is_500_validation_error() {
    let cfg = config_of(vec![register("/hook", "{{name}}", "POST")]);
    let reg = Registry::build(&cfg).unwrap();
    match prepare(&reg, "/hook", "{\"name\":\"O'Brien\"}") {
        Prepared::Reply(r) => {
            assert_eq!(r.status, 500);
            assert!(r
                .body
                .starts_with("{\"error\":\"Rendered template is not valid JSON: "));
        }
        Prepared::Forward(_) => panic!("expected a 500 reply"),
    }
}

#[test]
fn render_failure_is_500_distinct_from_validation_error() {
    let cfg = config_of(vec![register("/hook", "{{> missing_partial}}", "POST")]);
    let reg = Registry::build(&cfg).unwrap();
    match prepare(&reg, "/hook", "{\"a\":1}") {
        Prepared::Reply(r) => {
            assert_eq!(r.status, 500);
            assert!(r.body.starts_with("{\"error\":\"Template rendering failed: "));
        }
        Prepared::Forward(_) => panic!("expected a 500 reply"),
    }
}

#[test]
fn non_object_body_is_wrapped_under_data() {
    let cfg = config_of(vec![register("/hook", "{{data}}", "POST")]);
    let reg = Registry::build(&cfg).unwrap();
    match prepare(&reg, "/hook", "42") {
        Prepared::Forward(f) => assert_eq!(f.payload, "42"),
        Prepared::Reply(r) => panic!("expected a forward, got status {}", r.status),
    }
}

#[test]
fn array_body_is_wrapped_under_data() {
    let cfg = config_of(vec![register("/hook", "{{data.[0]}}", "POST")]);
    let reg = Registry::build(&cfg).unwrap();
    match prepare(&reg, "/hook", "[7,8,9]") {
        Prepared::Forward(f) => assert_eq!(f.payload, "7"),
        Prepared::Reply(r) => panic!("expected a forward, got status {}", r.status),
    }
}

#[test]
fn unsupported_target_method_is_500() {
    let cfg = config_of(vec![register("/hook", "{{a}}", "TRACE")]);
    let reg = Registry::build(&cfg).unwrap();
    match prepare(&reg, "/hook", "{\"a\":1}") {
        Prepared::Reply(r) => {
            assert_eq!(r.status, 500);
            assert_eq!(r.body, "{\"error\":\"Unsupported HTTP method: TRACE\"}");
        }
        Prepared::Forward(_) => panic!("expected a 500 reply"),
    }
}

#[test]
fn target_method_is_matched_case_insensitively() {
    let cfg = config_of(vec![register("/hook", "{{a}}", "delete")]);
    let reg = Registry::build(&cfg).unwrap();
    match prepare(&reg, "/hook", "{\"a\":1}") {
        Prepared::Forward(f) => assert_eq!(f.method, HttpMethod::Delete),
        Prepared::Reply(r) => panic!("expected a forward, got status {}", r.status),
    }
}

#[test]
fn forward_payload_is_canonical_json() {
    let cfg = config_of(vec![register(
        "/hook",
        "{ \"b\" : {{b}} , \"a\" : {{a}} }",
        "PUT",
    )]);
    let reg = Registry::build(&cfg).unwrap();
    match prepare(&reg, "/hook", "{\"a\":2,\"b\":1}") {
        Prepared::Forward(f) => {
            assert_eq!(f.method, HttpMethod::Put);
            assert_eq!(f.payload, "{\"a\":2,\"b\":1}");
        }
        Prepared::Reply(r) => panic!("expected a forward, got status {}", r.status),
    }
}

#[test]
fn repeated_identical_requests_prepare_identical_forwards() {
    let cfg = config_of(vec![register("/hook", "{{a}}", "POST")]);
    let reg = Registry::build(&cfg).unwrap();
    let first = prepare(&reg, "/hook", "{\"a\":1}");
    let second = prepare(&reg, "/hook", "{\"a\":1}");
    match (first, second) {
        (Prepared::Forward(f1), Prepared::Forward(f2)) => {
            assert_eq!(f1.method, f2.method);
            assert_eq!(f1.url, f2.url);
            assert_eq!(f1.payload, f2.payload);
        }
        _ => panic!("expected two forwards"),
    }
}

#[test]
fn later_registration_shadows_earlier_one() {
    let cfg = config_of(vec![
        register("/hook", "{{a}}", "POST"),
        register("/hook", "{{b}}", "POST"),
    ]);
    let reg = Registry::build(&cfg).unwrap();
    match prepare(&reg, "/hook", "{\"a\":1,\"b\":2}") {
        Prepared::Forward(f) => assert_eq!(f.payload, "2"),
        Prepared::Reply(r) => panic!("expected a forward, got status {}", r.status),
    }
}

#[test]
fn registry_build_is_deterministic() {
    let cfg = config_of(vec![
        register("/one", "{{a}}", "GET"),
        register("/two", "{{b}}", "PATCH"),
    ]);
    let reg1 = Registry::build(&cfg).unwrap();
    let reg2 = Registry::build(&cfg).unwrap();
    assert_eq!(reg1.len(), reg2.len());
    for i in 0..reg1.len() {
        let r1 = reg1.rule_at(i);
        let r2 = reg2.rule_at(i);
        assert_eq!(r1.endpoint, r2.endpoint);
        assert_eq!(r1.method, r2.method);
        assert_eq!(r1.target.url, r2.target.url);
        assert_eq!(r1.target.method, r2.target.method);
        assert_eq!(r1.template.source(), r2.template.source());
    }
}

#[test]
fn registry_build_fails_on_bad_template() {
    let cfg = config_of(vec![register("/hook", "{{#if}", "POST")]);
    assert!(Registry::build(&cfg).is_err());
}

#[test]
fn debug_reply_is_fixed_acknowledgement() {
    let r = debug_reply();
    assert_eq!(r.status, 200);
    assert_eq!(r.body, "{\"message\":\"Payload logged\",\"status\":\"success\"}");
}

#[test]
fn upstream_json_body_is_relayed_canonically() {
    let r = conclude(&ForwardEvent::Response {
        body: "{ \"b\" : 1 , \"a\" : 2 }".to_string(),
    });
    assert_eq!(r.status, 200);
    assert_eq!(
        r.body,
        "{\"status\":\"success\",\"target_response\":{\"a\":2,\"b\":1}}"
    );
}

#[test]
fn upstream_text_body_is_relayed_as_json_string() {
    let r = conclude(&ForwardEvent::Response {
        body: "plain \"text\" reply".to_string(),
    });
    assert_eq!(r.status, 200);
    assert_eq!(
        r.body,
        "{\"status\":\"success\",\"target_response\":\"plain \\\"text\\\" reply\"}"
    );
}

#[test]
fn send_failure_is_500() {
    let r = conclude(&ForwardEvent::SendFailed {
        message: "connection refused".to_string(),
    });
    assert_eq!(r.status, 500);
    assert_eq!(
        r.body,
        "{\"error\":\"Failed to send request to target: connection refused\"}"
    );
}

#[test]
fn read_failure_is_500() {
    let r = conclude(&ForwardEvent::ReadFailed {
        message: "reset by peer".to_string(),
    });
    assert_eq!(r.status, 500);
    assert_eq!(
        r.body,
        "{\"error\":\"Failed to read response: reset by peer\"}"
    );
}
