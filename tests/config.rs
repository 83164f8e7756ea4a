use trace_demo::config::{filter_directive, Level, TelemetryConfig, EXPORT_TIMEOUT_SECS};

#[test]
fn level_names_are_lower_case() {
    assert_eq!(Level::Trace.name(), "trace");
    assert_eq!(Level::Debug.name(), "debug");
    assert_eq!(Level::Info.name(), "info");
    assert_eq!(Level::Warn.name(), "warn");
    assert_eq!(Level::Error.name(), "error");
}

#[test]
fn directive_joins_target_and_level() {
    assert_eq!(filter_directive("my_service", Level::Info), "my_service=info");
    assert_eq!(filter_directive("a::b", Level::Warn), "a::b=warn");
}

#[test]
fn directive_with_empty_target() {
    assert_eq!(filter_directive("", Level::Error), "=error");
}

#[test]
fn development_configuration() {
    let c = TelemetryConfig::new("demo");
    assert_eq!(c.endpoint, "http://127.0.0.1:4317");
    assert_eq!(c.export_timeout_secs, 3);
    assert_eq!(EXPORT_TIMEOUT_SECS, 3);
    assert_eq!(c.default_level, Level::Error);
    assert_eq!(c.filter_directive, "demo=info");
    assert_eq!(c.resource.len(), 2);
    assert_eq!(c.resource[0].key, "deployment.environment");
    assert_eq!(c.resource[0].value, "dev");
    assert_eq!(c.resource[1].key, "service.name");
    assert_eq!(c.resource[1].value, "demo");
}
