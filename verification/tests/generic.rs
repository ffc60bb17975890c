use simpleddns::models::{ConfigValue, IpAddress, JsonField, JsonLeaf};
use simpleddns::providers::generic::{method_named, render_template, GenericHttpProvider};
use simpleddns::providers::{HttpMethod, Payload, Phase, ProviderAction, ProviderError, Reply};

#[test]
fn test_render_template() {
    let result = render_template(
        "https://api.example.com/update?domain={domain}&ip={ipv4}",
        "test.example.com",
        Some(IpAddress::V4([1, 2, 3, 4])),
        None,
    );
    assert_eq!(
        result,
        "https://api.example.com/update?domain=test.example.com&ip=1.2.3.4"
    );
}

#[test]
fn test_render_template_ipv6() {
    let result = render_template(
        "{\"ipv4\":\"{ipv4}\",\"ipv6\":\"{ipv6}\"}",
        "test.example.com",
        None,
        Some(IpAddress::V6([0x2001, 0xdb8, 0, 0, 0, 0, 0, 1])),
    );
    assert_eq!(result, "{\"ipv4\":\"\",\"ipv6\":\"2001:db8::1\"}");
}

#[test]
fn render_template_replaces_every_occurrence() {
    let r = render_template("{domain}/{domain}/{ipv4}", "a.b", Some(IpAddress::V4([10, 0, 0, 1])), None);
    assert_eq!(r, "a.b/a.b/10.0.0.1");
}

fn text(k: &str, v: &str) -> (String, JsonField) {
    (k.to_string(), JsonField::Text(v.to_string()))
}

#[test]
fn missing_url_is_a_config_error() {
    let cfg = ConfigValue::Object(vec![]);
    let (run, action) = GenericHttpProvider::new().start("x.example.com", Some(IpAddress::V4([1, 1, 1, 1])), None, &cfg);
    assert_eq!(run.phase, Phase::Done);
    match action {
        ProviderAction::Finish(Err(ProviderError::Config(m))) => assert_eq!(m, "Missing URL template"),
        other => panic!("unexpected {:?}", other),
    }
}

#[test]
fn get_request_is_rendered_without_body() {
    let cfg = ConfigValue::Object(vec![
        text("url", "https://h/u?d={domain}&ip={ipv4}"),
        (
            "headers".to_string(),
            JsonField::Object(vec![
                ("X-Ip".to_string(), JsonLeaf::Text("{ipv4}".to_string())),
                ("X-Num".to_string(), JsonLeaf::Other("5".to_string())),
            ]),
        ),
    ]);
    let (_, action) = GenericHttpProvider::new().start("d.example.com", Some(IpAddress::V4([5, 6, 7, 8])), None, &cfg);
    match action {
        ProviderAction::Send(req) => {
            assert_eq!(req.method, HttpMethod::Get);
            assert_eq!(req.url, "https://h/u?d=d.example.com&ip=5.6.7.8");
            assert_eq!(req.headers, vec![("X-Ip".to_string(), "5.6.7.8".to_string())]);
            assert!(matches!(req.payload, Payload::Empty));
        },
        other => panic!("unexpected {:?}", other),
    }
}

#[test]
fn post_request_carries_rendered_body() {
    let cfg = ConfigValue::Object(vec![
        text("url", "https://h/u"),
        text("method", "post"),
        text("body", "{\"ip\":\"{ipv6}\"}"),
    ]);
    let (_, action) = GenericHttpProvider::new().start("d", None, Some(IpAddress::V6([0xfe80, 0, 0, 0, 0, 0, 0, 2])), &cfg);
    match action {
        ProviderAction::Send(req) => {
            assert_eq!(req.method, HttpMethod::Post);
            match req.payload {
                Payload::Text(t) => assert_eq!(t, "{\"ip\":\"fe80::2\"}"),
                other => panic!("unexpected {:?}", other),
            }
        },
        other => panic!("unexpected {:?}", other),
    }
}

#[test]
fn method_names() {
    assert_eq!(method_named("POST"), HttpMethod::Post);
    assert_eq!(method_named("PUT"), HttpMethod::Put);
    assert_eq!(method_named("PATCH"), HttpMethod::Patch);
    assert_eq!(method_named("DELETE"), HttpMethod::Delete);
    assert_eq!(method_named("GET"), HttpMethod::Get);
    assert_eq!(method_named("OPTIONS"), HttpMethod::Get);
}

#[test]
fn failed_status_reports_status_and_body() {
    let cfg = ConfigValue::Object(vec![text("url", "https://h/u")]);
    let p = GenericHttpProvider::new();
    let (run, _) = p.start("d", Some(IpAddress::V4([1, 2, 3, 4])), None, &cfg);
    let (run, action) = p.step(run, Reply::Received { success: false, status: "404 Not Found".to_string(), body: "nope".to_string() });
    assert_eq!(run.phase, Phase::Done);
    match action {
        ProviderAction::Finish(Err(ProviderError::Api(m))) => assert_eq!(m, "HTTP 404 Not Found - nope"),
        other => panic!("unexpected {:?}", other),
    }
}

#[test]
fn success_status_finishes_well() {
    let cfg = ConfigValue::Object(vec![text("url", "https://h/u")]);
    let p = GenericHttpProvider::new();
    let (run, _) = p.start("d", Some(IpAddress::V4([1, 2, 3, 4])), None, &cfg);
    let (_, action) = p.step(run, Reply::Received { success: true, status: "200 OK".to_string(), body: String::new() });
    assert!(matches!(action, ProviderAction::Finish(Ok(()))));
}

#[test]
fn transport_failure_is_a_network_error() {
    let cfg = ConfigValue::Object(vec![text("url", "https://h/u")]);
    let p = GenericHttpProvider::new();
    let (run, _) = p.start("d", Some(IpAddress::V4([1, 2, 3, 4])), None, &cfg);
    let (_, action) = p.step(run, Reply::Failed("timed out".to_string()));
    match action {
        ProviderAction::Finish(Err(ProviderError::Network(m))) => assert_eq!(m, "timed out"),
        other => panic!("unexpected {:?}", other),
    }
}
