use rust_otel_setup::config::AuthConfig;
use rust_otel_setup::config::ConfigError;
use rust_otel_setup::config::EnvVars;
use rust_otel_setup::config::GCPAuthConfig;
use rust_otel_setup::config::LogConfig;
use rust_otel_setup::config::LokiConfig;
use rust_otel_setup::config::OTLPTraceConfig;
use rust_otel_setup::config::TraceConfig;

fn empty_env() -> EnvVars {
    EnvVars {
        log_provider: None,
        loki_url: None,
        otel_exporter_traces: None,
        otel_exporter_otlp_endpoint: None,
        auth_provider: None,
        google_project_id: None,
    }
}

fn text(s: &str) -> Option<String> {
    Some(s.to_string())
}

#[test]
fn defaults_apply_where_nothing_is_set() {
    let env = empty_env();
    assert_eq!(LokiConfig::from_env(&env), Ok(LokiConfig { url: "http://localhost:3100".to_string() }));
    assert_eq!(AuthConfig::from_env(&env), Ok(AuthConfig::Unauthenticated));
    assert_eq!(LogConfig::from_env(&env), Ok(LogConfig::Stdout));
    assert_eq!(TraceConfig::from_env(&env), Ok(TraceConfig::StdOut));
    assert_eq!(
        OTLPTraceConfig::from_env(&env),
        Ok(OTLPTraceConfig { endpoint: "http://localhost:4317".to_string(), auth_config: AuthConfig::Unauthenticated })
    );
}

#[test]
fn gcp_needs_a_project_at_construction() {
    let mut env = empty_env();
    env.auth_provider = text("gcp");
    assert_eq!(GCPAuthConfig::from_env(&env), Err(ConfigError::MissingProjectId));
    assert_eq!(AuthConfig::from_env(&env), Err(ConfigError::MissingProjectId));
    assert_eq!(OTLPTraceConfig::from_env(&env), Err(ConfigError::MissingProjectId));
    env.otel_exporter_traces = text("grpc");
    assert_eq!(TraceConfig::from_env(&env), Err(ConfigError::MissingProjectId));
    env.google_project_id = text("proj-1");
    assert_eq!(
        AuthConfig::from_env(&env),
        Ok(AuthConfig::GCPAuth(GCPAuthConfig { project_id: "proj-1".to_string() }))
    );
}

#[test]
fn unknown_auth_provider_means_unauthenticated() {
    let mut env = empty_env();
    env.auth_provider = text("azure");
    env.google_project_id = text("proj-1");
    assert_eq!(AuthConfig::from_env(&env), Ok(AuthConfig::Unauthenticated));
    env.auth_provider = text("GCP");
    assert_eq!(AuthConfig::from_env(&env), Ok(AuthConfig::Unauthenticated));
    env.auth_provider = text("unauthenticated");
    assert_eq!(AuthConfig::from_env(&env), Ok(AuthConfig::Unauthenticated));
}

#[test]
fn log_provider_selects_the_sink() {
    let mut env = empty_env();
    env.log_provider = text("loki");
    assert_eq!(
        LogConfig::from_env(&env),
        Ok(LogConfig::Loki(LokiConfig { url: "http://localhost:3100".to_string() }))
    );
    env.loki_url = text("http://loki:3100");
    assert_eq!(LogConfig::from_env(&env), Ok(LogConfig::Loki(LokiConfig { url: "http://loki:3100".to_string() })));
    env.log_provider = text("otlp");
    assert_eq!(LogConfig::from_env(&env), Ok(LogConfig::OTLP));
    env.log_provider = text("stdout");
    assert_eq!(LogConfig::from_env(&env), Ok(LogConfig::Stdout));
    env.log_provider = text("syslog");
    assert_eq!(LogConfig::from_env(&env), Err(ConfigError::UnsupportedLogProvider));
    env.log_provider = text("");
    assert_eq!(LogConfig::from_env(&env), Err(ConfigError::UnsupportedLogProvider));
}

#[test]
fn trace_exporter_selects_the_transport() {
    let mut env = empty_env();
    env.otel_exporter_otlp_endpoint = text("http://collector:4317");
    let otlp = OTLPTraceConfig { endpoint: "http://collector:4317".to_string(), auth_config: AuthConfig::Unauthenticated };
    env.otel_exporter_traces = text("grpc");
    assert_eq!(TraceConfig::from_env(&env), Ok(TraceConfig::GRPC(otlp.clone())));
    env.otel_exporter_traces = text("http");
    assert_eq!(TraceConfig::from_env(&env), Ok(TraceConfig::HTTP(otlp.clone())));
    env.otel_exporter_traces = text("reqwest");
    assert_eq!(TraceConfig::from_env(&env), Ok(TraceConfig::REQWEST(otlp.clone())));
    env.otel_exporter_traces = text("stdout");
    assert_eq!(TraceConfig::from_env(&env), Ok(TraceConfig::StdOut));
    env.otel_exporter_traces = text("unknown");
    assert_eq!(TraceConfig::from_env(&env), Err(ConfigError::UnsupportedTraceExporter));
}

#[test]
fn trace_config_carries_the_gcp_project() {
    let mut env = empty_env();
    env.otel_exporter_traces = text("http");
    env.auth_provider = text("gcp");
    env.google_project_id = text("proj-1");
    assert_eq!(
        TraceConfig::from_env(&env),
        Ok(TraceConfig::HTTP(OTLPTraceConfig {
            endpoint: "http://localhost:4317".to_string(),
            auth_config: AuthConfig::GCPAuth(GCPAuthConfig { project_id: "proj-1".to_string() }),
        }))
    );
}
