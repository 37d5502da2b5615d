use otel_bootstrap::config::{build, is_secure_endpoint, ExporterConfig, Protocol};
use otel_bootstrap::environment::EnvironmentSnapshot;
use otel_bootstrap::error::{ConfigError, ErrorKind};
use otel_bootstrap::headers::{parse_headers, HeaderEntry};
use otel_bootstrap::lifecycle::Telemetry;

fn env(pairs: &[(&str, &str)]) -> Vec<(String, String)> {
    pairs.iter().map(|(k, v)| (k.to_string(), v.to_string())).collect()
}

fn entry(k: &str, v: &str) -> HeaderEntry {
    HeaderEntry { key: k.to_string(), value: v.to_string() }
}

fn err(kind: ErrorKind, input: &str) -> ConfigError {
    ConfigError { kind, input: input.to_string() }
}

fn configured(pairs: &[(&str, &str)]) -> ExporterConfig {
    let snap = EnvironmentSnapshot::resolve(&env(pairs));
    build(&snap).expect("valid configuration").expect("telemetry requested")
}

#[test]
fn unprefixed_environment_disables_telemetry() {
    let vars = env(&[("PATH", "/usr/bin"), ("HOME", "/root"), ("NOT_OTEL_X", "1")]);
    let snap = EnvironmentSnapshot::resolve(&vars);
    assert!(!snap.telemetry_requested);
    assert!(matches!(build(&snap), Ok(None)));
}

#[test]
fn empty_environment_disables_telemetry() {
    let snap = EnvironmentSnapshot::resolve(&Vec::new());
    assert!(!snap.telemetry_requested);
    assert_eq!(snap.protocol, None);
    assert!(matches!(build(&snap), Ok(None)));
}

#[test]
fn unprefixed_environment_ignores_bad_values() {
    // Without the prefix nothing is validated, not even a bad selector.
    let snap = EnvironmentSnapshot {
        telemetry_requested: false,
        protocol: Some("unsupported-value".to_string()),
        endpoint: None,
        headers: Some("bad".to_string()),
    };
    assert!(matches!(build(&snap), Ok(None)));
}

#[test]
fn resolve_reads_the_three_variables() {
    let vars = env(&[
        ("OTEL_SERVICE_NAME", "svc"),
        ("OTEL_EXPORTER_OTLP_PROTOCOL", "http/protobuf"),
        ("OTEL_EXPORTER_OTLP_ENDPOINT", "https://collector.example:4318"),
        ("OTEL_EXPORTER_OTLP_HEADERS", "api-key=abc"),
    ]);
    let snap = EnvironmentSnapshot::resolve(&vars);
    assert!(snap.telemetry_requested);
    assert_eq!(snap.protocol.as_deref(), Some("http/protobuf"));
    assert_eq!(snap.endpoint.as_deref(), Some("https://collector.example:4318"));
    assert_eq!(snap.headers.as_deref(), Some("api-key=abc"));
}

#[test]
fn resolve_last_definition_wins() {
    let vars = env(&[
        ("OTEL_EXPORTER_OTLP_PROTOCOL", "grpc"),
        ("OTEL_EXPORTER_OTLP_PROTOCOL", "http/protobuf"),
    ]);
    let snap = EnvironmentSnapshot::resolve(&vars);
    assert_eq!(snap.protocol.as_deref(), Some("http/protobuf"));
}

#[test]
fn prefix_alone_requests_telemetry() {
    let snap = EnvironmentSnapshot::resolve(&env(&[("OTEL_", "")]));
    assert!(snap.telemetry_requested);
    assert_eq!(snap.endpoint, None);
    assert_eq!(snap.headers, None);
}

#[test]
fn headers_two_pairs_in_order() {
    let r = parse_headers(Some("a=1,b=2")).unwrap();
    assert_eq!(r, vec![entry("a", "1"), entry("b", "2")]);
}

#[test]
fn headers_token_without_separator_fails() {
    assert_eq!(parse_headers(Some("a=1,bad")), Err(err(ErrorKind::MalformedHeader, "bad")));
}

#[test]
fn headers_token_with_two_separators_fails() {
    assert_eq!(parse_headers(Some("a=b=c")), Err(err(ErrorKind::MalformedHeader, "a=b=c")));
}

#[test]
fn headers_invalid_key_character_fails() {
    assert_eq!(parse_headers(Some("a b=1")), Err(err(ErrorKind::InvalidHeaderKey, "a b=1")));
    assert_eq!(parse_headers(Some("ok=1,k(y=2")), Err(err(ErrorKind::InvalidHeaderKey, "k(y=2")));
}

#[test]
fn headers_empty_key_fails() {
    assert_eq!(parse_headers(Some("=1")), Err(err(ErrorKind::InvalidHeaderKey, "=1")));
}

#[test]
fn headers_binary_key_fails() {
    assert_eq!(parse_headers(Some("x-bin=1")), Err(err(ErrorKind::InvalidHeaderKey, "x-bin=1")));
    assert_eq!(parse_headers(Some("X-BIN=1")), Err(err(ErrorKind::InvalidHeaderKey, "X-BIN=1")));
    assert_eq!(parse_headers(Some("bin=1")).unwrap(), vec![entry("bin", "1")]);
}

#[test]
fn headers_invalid_value_fails() {
    assert_eq!(parse_headers(Some("a=\u{7f}")), Err(err(ErrorKind::InvalidHeaderValue, "a=\u{7f}")));
    assert_eq!(parse_headers(Some("a=é")), Err(err(ErrorKind::InvalidHeaderValue, "a=é")));
}

#[test]
fn headers_value_space_tab_and_empty_accepted() {
    let r = parse_headers(Some("a=x y\tz,b=")).unwrap();
    assert_eq!(r, vec![entry("a", "x y\tz"), entry("b", "")]);
}

#[test]
fn headers_empty_string_gives_empty_set() {
    assert_eq!(parse_headers(Some("")), Ok(vec![]));
}

#[test]
fn headers_absent_gives_empty_set() {
    assert_eq!(parse_headers(None), Ok(vec![]));
}

#[test]
fn headers_trailing_comma_fails_on_empty_token() {
    assert_eq!(parse_headers(Some("a=1,")), Err(err(ErrorKind::MalformedHeader, "")));
}

#[test]
fn headers_first_fault_is_reported() {
    assert_eq!(parse_headers(Some("a=1,x,y y=2")), Err(err(ErrorKind::MalformedHeader, "x")));
}

#[test]
fn grpc_without_endpoint_uses_default_unencrypted() {
    let c = configured(&[("OTEL_EXPORTER_OTLP_PROTOCOL", "grpc")]);
    assert_eq!(c.protocol, Protocol::Grpc);
    assert_eq!(c.endpoint, None);
    assert!(!c.secure);
    assert_eq!(c.effective_endpoint(), "http://localhost:4317");
    assert!(c.headers.is_empty());
}

#[test]
fn missing_selector_defaults_to_grpc() {
    let c = configured(&[("OTEL_SERVICE_NAME", "svc")]);
    assert_eq!(c.protocol, Protocol::Grpc);
    assert!(!c.secure);
}

#[test]
fn http_protobuf_default_endpoint() {
    let c = configured(&[("OTEL_EXPORTER_OTLP_PROTOCOL", "http/protobuf")]);
    assert_eq!(c.protocol, Protocol::HttpProtobuf);
    assert_eq!(c.effective_endpoint(), "http://localhost:4318");
}

#[test]
fn https_endpoint_enables_security() {
    let c = configured(&[("OTEL_EXPORTER_OTLP_ENDPOINT", "https://collector.example:4317")]);
    assert!(c.secure);
    assert_eq!(c.endpoint.as_deref(), Some("https://collector.example:4317"));
    assert_eq!(c.effective_endpoint(), "https://collector.example:4317");
}

#[test]
fn http_endpoint_keeps_security_off() {
    let c = configured(&[("OTEL_EXPORTER_OTLP_ENDPOINT", "http://collector.example:4317")]);
    assert!(!c.secure);
}

#[test]
fn secure_endpoint_check() {
    assert!(is_secure_endpoint("https://collector.example:4317"));
    assert!(!is_secure_endpoint("http://collector.example:4317"));
    assert!(!is_secure_endpoint("https"));
    assert!(!is_secure_endpoint(""));
}

#[test]
fn unsupported_protocol_fails() {
    let snap = EnvironmentSnapshot::resolve(&env(&[("OTEL_EXPORTER_OTLP_PROTOCOL", "unsupported-value")]));
    assert_eq!(build(&snap).unwrap_err(), err(ErrorKind::UnsupportedProtocol, "unsupported-value"));
}

#[test]
fn protocol_is_checked_before_headers() {
    let snap = EnvironmentSnapshot::resolve(&env(&[
        ("OTEL_EXPORTER_OTLP_PROTOCOL", "http/json"),
        ("OTEL_EXPORTER_OTLP_HEADERS", "bad"),
    ]));
    assert_eq!(build(&snap).unwrap_err(), err(ErrorKind::UnsupportedProtocol, "http/json"));
}

#[test]
fn malformed_headers_fail_build() {
    let snap = EnvironmentSnapshot::resolve(&env(&[("OTEL_EXPORTER_OTLP_HEADERS", "a=1,bad")]));
    assert_eq!(build(&snap).unwrap_err(), err(ErrorKind::MalformedHeader, "bad"));
}

#[test]
fn headers_are_attached_to_config() {
    let c = configured(&[("OTEL_EXPORTER_OTLP_HEADERS", "a=1,b=2")]);
    assert_eq!(c.headers, vec![entry("a", "1"), entry("b", "2")]);
}

#[test]
fn protocol_selector_values() {
    assert_eq!(Protocol::from_selector(None), Ok(Protocol::Grpc));
    assert_eq!(Protocol::from_selector(Some("grpc")), Ok(Protocol::Grpc));
    assert_eq!(Protocol::from_selector(Some("http/protobuf")), Ok(Protocol::HttpProtobuf));
    assert_eq!(Protocol::from_selector(Some("GRPC")), Err(err(ErrorKind::UnsupportedProtocol, "GRPC")));
    assert_eq!(Protocol::from_selector(Some("")), Err(err(ErrorKind::UnsupportedProtocol, "")));
}

#[test]
fn absent_exporter_gives_no_layer() {
    let t: Telemetry<u32> = Telemetry::start(None::<u32>, |e| e + 1);
    assert!(matches!(t, Telemetry::Disabled));
    assert!(!t.enabled());
    assert_eq!(t.layer(|p| *p * 2), None);
    assert_eq!(t.into_provider(), None);
}

#[test]
fn present_exporter_gives_provider_and_layer() {
    let t: Telemetry<u32> = Telemetry::start(Some(5u32), |e| e + 1);
    assert!(t.enabled());
    assert_eq!(t.layer(|p| *p * 2), Some(12));
    assert_eq!(t.into_provider(), Some(6));
}
