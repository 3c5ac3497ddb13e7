use rust_otel_setup::auth::clock::Timestamp;
use rust_otel_setup::auth::gcp::GcpAuthProvider;
use rust_otel_setup::auth::layer::new_gen_token;
use rust_otel_setup::auth::unauthenticated::Unauthenticated;
use rust_otel_setup::auth::AuthEvent;
use rust_otel_setup::auth::FetchError;
use rust_otel_setup::auth::GetToken;
use rust_otel_setup::auth::HeaderAction;
use rust_otel_setup::auth::TokenProvider;
use rust_otel_setup::config::AuthConfig;
use rust_otel_setup::config::GCPAuthConfig;

fn ready(action: HeaderAction) -> Vec<(String, String)> {
    match action {
        HeaderAction::Ready(pairs) => pairs,
        HeaderAction::Fetch => panic!("asked for a fetch"),
        HeaderAction::Fail(e) => panic!("failed with {:?}", e),
    }
}

fn pair(name: &str, value: &str) -> (String, String) {
    (name.to_string(), value.to_string())
}

fn request(secs: u64) -> AuthEvent {
    AuthEvent::Request { now: Some(Timestamp::from_secs(secs)) }
}

fn fetched(token: &str, secs: u64) -> AuthEvent {
    AuthEvent::Fetched { result: Ok(token.to_string()), now: Some(Timestamp::from_secs(secs)) }
}

#[test]
fn unauthenticated_yields_no_headers_whatever_the_event() {
    let mut provider = Unauthenticated::new();
    assert!(ready(provider.get_auth_headers(request(0))).is_empty());
    assert!(ready(provider.get_auth_headers(fetched("tok", 5))).is_empty());
    let failed = AuthEvent::Fetched { result: Err(FetchError::Headers), now: Some(Timestamp::from_secs(9)) };
    assert!(ready(provider.get_auth_headers(failed)).is_empty());
    assert!(ready(provider.get_auth_headers(request(1_000_000))).is_empty());
}

#[test]
fn gcp_provider_serves_token_a_then_token_b() {
    let config = GCPAuthConfig { project_id: "proj-1".to_string() };
    let mut provider = GcpAuthProvider::new_with_default(&config);
    assert!(matches!(provider.get_auth_headers(request(1_000)), HeaderAction::Fetch));
    let first = ready(provider.get_auth_headers(fetched("tok-A", 1_000)));
    assert_eq!(first, vec![pair("authorization", "Bearer tok-A"), pair("x-goog-user-project", "proj-1")]);
    let again = ready(provider.get_auth_headers(request(1_500)));
    assert_eq!(again, vec![pair("authorization", "Bearer tok-A"), pair("x-goog-user-project", "proj-1")]);
    assert!(matches!(provider.get_auth_headers(request(1_601)), HeaderAction::Fetch));
    let second = ready(provider.get_auth_headers(fetched("tok-B", 1_601)));
    assert_eq!(second, vec![pair("authorization", "Bearer tok-B"), pair("x-goog-user-project", "proj-1")]);
    let after = ready(provider.get_auth_headers(request(1_602)));
    assert_eq!(after, vec![pair("authorization", "Bearer tok-B"), pair("x-goog-user-project", "proj-1")]);
}

#[test]
fn gcp_provider_default_threshold_is_ten_minutes() {
    let config = GCPAuthConfig { project_id: "p".to_string() };
    let mut provider = GcpAuthProvider::new_with_default(&config);
    let _ = provider.get_auth_headers(fetched("tok", 0));
    assert!(matches!(provider.get_auth_headers(request(600)), HeaderAction::Ready(_)));
    assert!(matches!(provider.get_auth_headers(request(601)), HeaderAction::Fetch));
}

#[test]
fn gcp_provider_gives_no_partial_headers_on_failure() {
    let config = GCPAuthConfig { project_id: "proj-1".to_string() };
    let mut provider = GcpAuthProvider::new_with_default(&config);
    let failed = AuthEvent::Fetched { result: Err(FetchError::Credentials), now: Some(Timestamp::from_secs(1)) };
    assert!(matches!(provider.get_auth_headers(failed), HeaderAction::Fail(FetchError::Credentials)));
    assert!(matches!(provider.get_auth_headers(request(2)), HeaderAction::Fetch));
}

#[test]
fn factory_selects_the_variant() {
    let mut none = new_gen_token(&AuthConfig::Unauthenticated);
    assert!(matches!(none, TokenProvider::Unauthenticated(_)));
    assert!(ready(none.get_auth_headers(request(0))).is_empty());
    let config = AuthConfig::GCPAuth(GCPAuthConfig { project_id: "proj-9".to_string() });
    let mut gcp = new_gen_token(&config);
    assert!(matches!(gcp, TokenProvider::Gcp(_)));
    assert!(matches!(gcp.get_auth_headers(request(0)), HeaderAction::Fetch));
    let pairs = ready(gcp.get_auth_headers(fetched("t", 0)));
    assert_eq!(pairs, vec![pair("authorization", "Bearer t"), pair("x-goog-user-project", "proj-9")]);
}
