//! Configuration values and how they follow from the environment.
//!
//! Reading the environment is left to the caller, who hands over what it
//! found as an [`EnvVars`]; a variable that is unset, or not valid Unicode,
//! is `None`.

use vstd::prelude::*;
use vstd::string::StringExecFns;

verus! {

/// The variables that the configuration is made from, as read.
#[derive(Debug, Clone, PartialEq, Eq, Hash)]
pub struct EnvVars {
    /// `LOG_PROVIDER`
    pub log_provider: Option<String>,
    /// `LOKI_URL`
    pub loki_url: Option<String>,
    /// `OTEL_EXPORTER_TRACES`
    pub otel_exporter_traces: Option<String>,
    /// `OTEL_EXPORTER_OTLP_ENDPOINT`
    pub otel_exporter_otlp_endpoint: Option<String>,
    /// `AUTH_PROVIDER`
    pub auth_provider: Option<String>,
    /// `GOOGLE_PROJECT_ID`
    pub google_project_id: Option<String>,
}

/// Why no configuration follows from the environment.
#[derive(Clone, Copy, Debug, PartialEq, Eq, Hash, Structural)]
pub enum ConfigError {
    /// GCP authentication is selected and `GOOGLE_PROJECT_ID` is not set.
    MissingProjectId,
    /// `LOG_PROVIDER` names no known log provider.
    UnsupportedLogProvider,
    /// `OTEL_EXPORTER_TRACES` names no known trace exporter.
    UnsupportedTraceExporter,
}

/// Enum representing the possible logging configurations.
#[derive(Debug, Clone, PartialEq, Eq, Hash)]
pub enum LogConfig {
    /// Loki configuration.
    Loki(LokiConfig),
    /// OTLP configuration.
    OTLP,
    /// Standard output configuration.
    Stdout,
}

/// Enum representing the possible tracing configurations.
#[derive(Debug, Clone, PartialEq, Eq, Hash)]
pub enum TraceConfig {
    /// OTLP over HTTP, sent by a hyper client.
    HTTP(OTLPTraceConfig),
    /// OTLP over gRPC.
    GRPC(OTLPTraceConfig),
    /// OTLP over HTTP, sent by a reqwest client.
    REQWEST(OTLPTraceConfig),
    /// Standard output configuration.
    StdOut,
}

/// Struct for Loki configuration.
#[derive(Debug, Clone, PartialEq, Eq, Hash)]
pub struct LokiConfig {
    /// The URL of the Loki instance.
    pub url: String,
}

/// Struct for OTLP trace configuration.
#[derive(Debug, Clone, PartialEq, Eq, Hash)]
pub struct OTLPTraceConfig {
    /// The endpoint for the OTLP collector.
    pub endpoint: String,
    /// Authorization configuration.
    pub auth_config: AuthConfig,
}

/// Enum representing the possible authentication configurations.
#[derive(Debug, Clone, PartialEq, Eq, Hash)]
pub enum AuthConfig {
    /// GCP authentication.
    GCPAuth(GCPAuthConfig),
    /// No authentication.
    Unauthenticated,
}

/// Struct for GCP authentication configuration.
#[derive(Debug, Clone, PartialEq, Eq, Hash)]
pub struct GCPAuthConfig {
    /// Google Cloud Project ID.
    pub project_id: String,
}

/// Which interceptor a gRPC exporter authenticates with.
#[derive(Clone, Copy, Debug, PartialEq, Eq, Hash, Structural)]
pub enum OTLPTraceInterceptor {
    /// Requests pass as they are.
    Unauthenticated,
    /// Requests carry a GCP bearer token.
    GCP,
}

/// The mathematical value of an [`EnvVars`].
pub struct EnvVarsView {
    pub log_provider: Option<Seq<char>>,
    pub loki_url: Option<Seq<char>>,
    pub otel_exporter_traces: Option<Seq<char>>,
    pub otel_exporter_otlp_endpoint: Option<Seq<char>>,
    pub auth_provider: Option<Seq<char>>,
    pub google_project_id: Option<Seq<char>>,
}

/// The mathematical value of a [`LokiConfig`].
pub struct LokiConfigView {
    pub url: Seq<char>,
}

/// The mathematical value of a [`GCPAuthConfig`].
pub struct GCPAuthConfigView {
    pub project_id: Seq<char>,
}

/// The mathematical value of an [`AuthConfig`].
pub enum AuthConfigView {
    GCPAuth(GCPAuthConfigView),
    Unauthenticated,
}

/// The mathematical value of an [`OTLPTraceConfig`].
pub struct OTLPTraceConfigView {
    pub endpoint: Seq<char>,
    pub auth_config: AuthConfigView,
}

/// The mathematical value of a [`LogConfig`].
pub enum LogConfigView {
    Loki(LokiConfigView),
    OTLP,
    Stdout,
}

/// The mathematical value of a [`TraceConfig`].
pub enum TraceConfigView {
    HTTP(OTLPTraceConfigView),
    GRPC(OTLPTraceConfigView),
    REQWEST(OTLPTraceConfigView),
    StdOut,
}

impl View for EnvVars {
    type V = EnvVarsView;

    open spec fn view(&self) -> EnvVarsView {
        EnvVarsView {
            log_provider: text_view(self.log_provider),
            loki_url: text_view(self.loki_url),
            otel_exporter_traces: text_view(self.otel_exporter_traces),
            otel_exporter_otlp_endpoint: text_view(self.otel_exporter_otlp_endpoint),
            auth_provider: text_view(self.auth_provider),
            google_project_id: text_view(self.google_project_id),
        }
    }
}

impl View for LokiConfig {
    type V = LokiConfigView;

    open spec fn view(&self) -> LokiConfigView {
        LokiConfigView { url: self.url@ }
    }
}

impl View for GCPAuthConfig {
    type V = GCPAuthConfigView;

    open spec fn view(&self) -> GCPAuthConfigView {
        GCPAuthConfigView { project_id: self.project_id@ }
    }
}

impl View for AuthConfig {
    type V = AuthConfigView;

    open spec fn view(&self) -> AuthConfigView {
        match self {
            AuthConfig::GCPAuth(config) => AuthConfigView::GCPAuth(config@),
            AuthConfig::Unauthenticated => AuthConfigView::Unauthenticated,
        }
    }
}

impl View for OTLPTraceConfig {
    type V = OTLPTraceConfigView;

    open spec fn view(&self) -> OTLPTraceConfigView {
        OTLPTraceConfigView { endpoint: self.endpoint@, auth_config: self.auth_config@ }
    }
}

impl View for LogConfig {
    type V = LogConfigView;

    open spec fn view(&self) -> LogConfigView {
        match self {
            LogConfig::Loki(config) => LogConfigView::Loki(config@),
            LogConfig::OTLP => LogConfigView::OTLP,
            LogConfig::Stdout => LogConfigView::Stdout,
        }
    }
}

impl View for TraceConfig {
    type V = TraceConfigView;

    open spec fn view(&self) -> TraceConfigView {
        match self {
            TraceConfig::HTTP(config) => TraceConfigView::HTTP(config@),
            TraceConfig::GRPC(config) => TraceConfigView::GRPC(config@),
            TraceConfig::REQWEST(config) => TraceConfigView::REQWEST(config@),
            TraceConfig::StdOut => TraceConfigView::StdOut,
        }
    }
}

/// The characters of an optional string.
pub open spec fn text_view(value: Option<String>) -> Option<Seq<char>> {
    match value {
        Some(text) => Some(text@),
        None => None,
    }
}

/// `value` where it is set, `default` where it is not.
pub open spec fn or_default(value: Option<Seq<char>>, default: Seq<char>) -> Seq<char> {
    match value {
        Some(text) => text,
        None => default,
    }
}

impl EnvVarsView {
    /// The Loki configuration: `LOKI_URL`, by default a local instance.
    pub open spec fn loki_config(self) -> LokiConfigView {
        LokiConfigView { url: or_default(self.loki_url, "http://localhost:3100"@) }
    }

    /// The GCP configuration: `GOOGLE_PROJECT_ID`, which must be set.
    pub open spec fn gcp_auth_config(self) -> Result<GCPAuthConfigView, ConfigError> {
        match self.google_project_id {
            Some(project_id) => Ok(GCPAuthConfigView { project_id }),
            None => Err(ConfigError::MissingProjectId),
        }
    }

    /// The authentication: GCP where `AUTH_PROVIDER` is `gcp`, none for any
    /// other value and where it is not set.
    pub open spec fn auth_config(self) -> Result<AuthConfigView, ConfigError> {
        if or_default(self.auth_provider, "unauthenticated"@) == "gcp"@ {
            match self.gcp_auth_config() {
                Ok(config) => Ok(AuthConfigView::GCPAuth(config)),
                Err(e) => Err(e),
            }
        } else {
            Ok(AuthConfigView::Unauthenticated)
        }
    }

    /// The log configuration that `LOG_PROVIDER` selects: `loki`, `otlp` or
    /// `stdout`, the last also where it is not set.
    pub open spec fn log_config(self) -> Result<LogConfigView, ConfigError> {
        let provider = or_default(self.log_provider, "stdout"@);
        if provider == "loki"@ {
            Ok(LogConfigView::Loki(self.loki_config()))
        } else if provider == "otlp"@ {
            Ok(LogConfigView::OTLP)
        } else if provider == "stdout"@ {
            Ok(LogConfigView::Stdout)
        } else {
            Err(ConfigError::UnsupportedLogProvider)
        }
    }

    /// The OTLP configuration: `OTEL_EXPORTER_OTLP_ENDPOINT`, by default a
    /// local collector, and the authentication.
    pub open spec fn otlp_trace_config(self) -> Result<OTLPTraceConfigView, ConfigError> {
        match self.auth_config() {
            Ok(auth_config) => Ok(
                OTLPTraceConfigView {
                    endpoint: or_default(self.otel_exporter_otlp_endpoint, "http://localhost:4317"@),
                    auth_config,
                },
            ),
            Err(e) => Err(e),
        }
    }

    /// The trace configuration that `OTEL_EXPORTER_TRACES` selects: `grpc`,
    /// `http`, `reqwest` or `stdout`, the last also where it is not set.
    pub open spec fn trace_config(self) -> Result<TraceConfigView, ConfigError> {
        let exporter = or_default(self.otel_exporter_traces, "stdout"@);
        if exporter == "grpc"@ {
            match self.otlp_trace_config() {
                Ok(config) => Ok(TraceConfigView::GRPC(config)),
                Err(e) => Err(e),
            }
        } else if exporter == "http"@ {
            match self.otlp_trace_config() {
                Ok(config) => Ok(TraceConfigView::HTTP(config)),
                Err(e) => Err(e),
            }
        } else if exporter == "reqwest"@ {
            match self.otlp_trace_config() {
                Ok(config) => Ok(TraceConfigView::REQWEST(config)),
                Err(e) => Err(e),
            }
        } else if exporter == "stdout"@ {
            Ok(TraceConfigView::StdOut)
        } else {
            Err(ConfigError::UnsupportedTraceExporter)
        }
    }
}

/// A copy of `value` where it is set, of `default` where it is not.
fn text_or(value: &Option<String>, default: &str) -> (text: String)
    ensures
        text@ == or_default(text_view(*value), default@),
{
    match value {
        Some(text) => text.clone(),
        None => String::from_str(default),
    }
}

/// Whether `text` reads `word`.
fn reads(text: &String, word: &str) -> (same: bool)
    ensures
        same == (text@ == word@),
{
    let expected: String = String::from_str(word);
    *text == expected
}

impl LokiConfig {
    /// Creates a new `LokiConfig` from `LOKI_URL`, by default
    /// `http://localhost:3100`.
    pub fn from_env(env: &EnvVars) -> (r: Result<LokiConfig, ConfigError>)
        ensures
            r matches Ok(config) && config@ == env@.loki_config(),
    {
        let url: String = text_or(&env.loki_url, "http://localhost:3100");
        Ok(LokiConfig { url })
    }
}

impl GCPAuthConfig {
    /// Creates a new `GCPAuthConfig` from `GOOGLE_PROJECT_ID`, which must
    /// be set.
    pub fn from_env(env: &EnvVars) -> (r: Result<GCPAuthConfig, ConfigError>)
        ensures
            match env@.gcp_auth_config() {
                Ok(config) => r matches Ok(made) && made@ == config,
                Err(e) => r matches Err(reason) && reason == e,
            },
    {
        match &env.google_project_id {
            Some(project_id) => Ok(GCPAuthConfig { project_id: project_id.clone() }),
            None => Err(ConfigError::MissingProjectId),
        }
    }
}

impl AuthConfig {
    /// Creates an `AuthConfig` from `AUTH_PROVIDER`: GCP authentication for
    /// `gcp`, none for any other value and where it is not set.
    pub fn from_env(env: &EnvVars) -> (r: Result<AuthConfig, ConfigError>)
        ensures
            match env@.auth_config() {
                Ok(config) => r matches Ok(made) && made@ == config,
                Err(e) => r matches Err(reason) && reason == e,
            },
    {
        let provider: String = text_or(&env.auth_provider, "unauthenticated");
        if reads(&provider, "gcp") {
            match GCPAuthConfig::from_env(env) {
                Ok(config) => Ok(AuthConfig::GCPAuth(config)),
                Err(e) => Err(e),
            }
        } else {
            Ok(AuthConfig::Unauthenticated)
        }
    }
}

impl LogConfig {
    /// Creates a `LogConfig` from `LOG_PROVIDER`: `loki`, `otlp` or
    /// `stdout`, the last also where it is not set. For `loki` the URL comes
    /// from `LOKI_URL`.
    pub fn from_env(env: &EnvVars) -> (r: Result<LogConfig, ConfigError>)
        ensures
            match env@.log_config() {
                Ok(config) => r matches Ok(made) && made@ == config,
                Err(e) => r matches Err(reason) && reason == e,
            },
    {
        let provider: String = text_or(&env.log_provider, "stdout");
        if reads(&provider, "loki") {
            match LokiConfig::from_env(env) {
                Ok(config) => Ok(LogConfig::Loki(config)),
                Err(e) => Err(e),
            }
        } else if reads(&provider, "otlp") {
            Ok(LogConfig::OTLP)
        } else if reads(&provider, "stdout") {
            Ok(LogConfig::Stdout)
        } else {
            Err(ConfigError::UnsupportedLogProvider)
        }
    }
}

impl OTLPTraceConfig {
    /// Creates a new `OTLPTraceConfig` from `OTEL_EXPORTER_OTLP_ENDPOINT`,
    /// by default `http://localhost:4317`, and the authentication.
    pub fn from_env(env: &EnvVars) -> (r: Result<OTLPTraceConfig, ConfigError>)
        ensures
            match env@.otlp_trace_config() {
                Ok(config) => r matches Ok(made) && made@ == config,
                Err(e) => r matches Err(reason) && reason == e,
            },
    {
        let endpoint: String = text_or(&env.otel_exporter_otlp_endpoint, "http://localhost:4317");
        match AuthConfig::from_env(env) {
            Ok(auth_config) => Ok(OTLPTraceConfig { endpoint, auth_config }),
            Err(e) => Err(e),
        }
    }
}

impl TraceConfig {
    /// Creates a `TraceConfig` from `OTEL_EXPORTER_TRACES`: `grpc`, `http`,
    /// `reqwest` or `stdout`, the last also where it is not set.
    pub fn from_env(env: &EnvVars) -> (r: Result<TraceConfig, ConfigError>)
        ensures
            match env@.trace_config() {
                Ok(config) => r matches Ok(made) && made@ == config,
                Err(e) => r matches Err(reason) && reason == e,
            },
    {
        let exporter: String = text_or(&env.otel_exporter_traces, "stdout");
        if reads(&exporter, "grpc") {
            match OTLPTraceConfig::from_env(env) {
                Ok(config) => Ok(TraceConfig::GRPC(config)),
                Err(e) => Err(e),
            }
        } else if reads(&exporter, "http") {
            match OTLPTraceConfig::from_env(env) {
                Ok(config) => Ok(TraceConfig::HTTP(config)),
                Err(e) => Err(e),
            }
        } else if reads(&exporter, "reqwest") {
            match OTLPTraceConfig::from_env(env) {
                Ok(config) => Ok(TraceConfig::REQWEST(config)),
                Err(e) => Err(e),
            }
        } else if reads(&exporter, "stdout") {
            Ok(TraceConfig::StdOut)
        } else {
            Err(ConfigError::UnsupportedTraceExporter)
        }
    }
}

} // verus!
