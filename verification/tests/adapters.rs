use rust_otel_setup::auth::clock::Timestamp;
use rust_otel_setup::auth::gcp::GcpAuthProvider;
use rust_otel_setup::auth::unauthenticated::Unauthenticated;
use rust_otel_setup::auth::AuthEvent;
use rust_otel_setup::auth::FetchError;
use rust_otel_setup::auth::TokenProvider;
use rust_otel_setup::config::GCPAuthConfig;
use rust_otel_setup::tracer::grpc::interceptor::TonicInterceptor;
use rust_otel_setup::tracer::http::HyperTracerClient;
use rust_otel_setup::tracer::merge_headers;
use rust_otel_setup::tracer::reqwest::ReqwestTracerClient;
use rust_otel_setup::tracer::AdapterError;
use rust_otel_setup::tracer::Intercepted;
use rust_otel_setup::tracer::MergeError;
use rust_otel_setup::tracer::RpcCode;
use rust_otel_setup::tracer::MAX_NAMES;
use tonic::codegen::http::HeaderMap;
use tonic::codegen::http::HeaderValue;
use tonic::metadata::MetadataMap;

fn gcp(project: &str) -> TokenProvider {
    TokenProvider::Gcp(GcpAuthProvider::new_with_default(&GCPAuthConfig { project_id: project.to_string() }))
}

fn request(secs: u64) -> AuthEvent {
    AuthEvent::Request { now: Some(Timestamp::from_secs(secs)) }
}

fn fetched(token: &str, secs: u64) -> AuthEvent {
    AuthEvent::Fetched { result: Ok(token.to_string()), now: Some(Timestamp::from_secs(secs)) }
}

fn pairs(items: &[(&str, &str)]) -> Vec<(String, String)> {
    items.iter().map(|(k, v)| (k.to_string(), v.to_string())).collect()
}

fn forwarded<S>(r: Intercepted<S>) -> S {
    match r {
        Intercepted::Forward(sink) => sink,
        Intercepted::Reject(e) => panic!("rejected with {:?}", e),
        Intercepted::Fetch(_) => panic!("asked for a fetch"),
    }
}

fn rejected<S>(r: Intercepted<S>) -> AdapterError {
    match r {
        Intercepted::Reject(e) => e,
        Intercepted::Forward(_) => panic!("forwarded"),
        Intercepted::Fetch(_) => panic!("asked for a fetch"),
    }
}

#[test]
fn grpc_request_passes_unchanged_without_authentication() {
    let mut interceptor = TonicInterceptor::new(TokenProvider::Unauthenticated(Unauthenticated::new()));
    let mut metadata = MetadataMap::new();
    metadata.insert("x-trace", "1".parse().unwrap());
    let out = forwarded(interceptor.call(metadata, request(10)));
    assert_eq!(out.len(), 1);
    assert_eq!(out.get("x-trace").unwrap(), "1");
}

#[test]
fn grpc_request_waits_for_a_fetch_then_carries_the_token() {
    let mut interceptor = TonicInterceptor::new(gcp("proj-1"));
    let mut metadata = MetadataMap::new();
    metadata.insert("x-trace", "1".parse().unwrap());
    let back = match interceptor.call(metadata, request(100)) {
        Intercepted::Fetch(back) => back,
        _ => panic!("expected a fetch"),
    };
    assert_eq!(back.len(), 1);
    assert_eq!(back.get("x-trace").unwrap(), "1");
    let out = forwarded(interceptor.call(back, fetched("tok-A", 100)));
    assert_eq!(out.len(), 3);
    assert_eq!(out.get("authorization").unwrap(), "Bearer tok-A");
    assert_eq!(out.get("x-goog-user-project").unwrap(), "proj-1");
    assert_eq!(out.get("x-trace").unwrap(), "1");
    let next = forwarded(interceptor.call(MetadataMap::new(), request(200)));
    assert_eq!(next.get("authorization").unwrap(), "Bearer tok-A");
}

#[test]
fn grpc_merge_overwrites_what_the_request_held() {
    let mut interceptor = TonicInterceptor::new(gcp("proj-1"));
    let mut metadata = MetadataMap::new();
    metadata.insert("authorization", "Bearer old".parse().unwrap());
    metadata.append("authorization", "Bearer older".parse().unwrap());
    let out = forwarded(interceptor.call(metadata, fetched("tok-B", 5)));
    let values: Vec<_> = out.get_all("authorization").iter().collect();
    assert_eq!(values.len(), 1);
    assert_eq!(values[0], "Bearer tok-B");
    assert_eq!(out.keys_len(), 2);
}

#[test]
fn grpc_failed_fetch_is_unauthenticated() {
    let mut interceptor = TonicInterceptor::new(gcp("proj-1"));
    let failed = AuthEvent::Fetched { result: Err(FetchError::Headers), now: Some(Timestamp::from_secs(1)) };
    let e = rejected(interceptor.call(MetadataMap::new(), failed));
    assert_eq!(e, AdapterError::Credentials(FetchError::Headers));
    assert_eq!(e.rpc_code(), RpcCode::Unauthenticated);
}

#[test]
fn grpc_control_character_in_a_value_is_internal() {
    let mut interceptor = TonicInterceptor::new(gcp("proj\n1"));
    let e = rejected(interceptor.call(MetadataMap::new(), fetched("tok-A", 1)));
    assert_eq!(e, AdapterError::Headers(MergeError::InvalidValue));
    assert_eq!(e.rpc_code(), RpcCode::Internal);
    let mut interceptor = TonicInterceptor::new(gcp("proj-1"));
    let e = rejected(interceptor.call(MetadataMap::new(), fetched("tok\u{7f}", 1)));
    assert_eq!(e, AdapterError::Headers(MergeError::InvalidValue));
}

#[test]
fn header_values_may_hold_tabs_and_text_beyond_ascii() {
    let merged = merge_headers(MetadataMap::new(), &pairs(&[("x-a", "a\tb"), ("x-b", "caf\u{e9}")])).unwrap();
    assert_eq!(merged.get("x-a").unwrap().as_encoded_bytes(), b"a\tb");
    assert_eq!(merged.get("x-b").unwrap().as_encoded_bytes(), "caf\u{e9}".as_bytes());
    let merged = merge_headers(HeaderMap::new(), &pairs(&[("x-b", "caf\u{e9}")])).unwrap();
    assert_eq!(merged.get("x-b").unwrap().as_bytes(), "caf\u{e9}".as_bytes());
}

#[test]
fn merge_rejects_the_first_pair_that_does_not_fit() {
    let bad_name = pairs(&[("x-ok", "1"), ("bad name", "2"), ("x-late", "3\n")]);
    assert_eq!(merge_headers(MetadataMap::new(), &bad_name).err(), Some(MergeError::InvalidName));
    assert_eq!(merge_headers(HeaderMap::new(), &bad_name).err(), Some(MergeError::InvalidName));
    let bad_value = pairs(&[("x-ok", "1"), ("x-bad", "2\r"), ("bad name", "3")]);
    assert_eq!(merge_headers(MetadataMap::new(), &bad_value).err(), Some(MergeError::InvalidValue));
    assert_eq!(merge_headers(HeaderMap::new(), &bad_value).err(), Some(MergeError::InvalidValue));
    let both = pairs(&[("", "\n")]);
    assert_eq!(merge_headers(MetadataMap::new(), &both).err(), Some(MergeError::InvalidName));
    assert_eq!(AdapterError::Headers(MergeError::InvalidName).rpc_code(), RpcCode::Unauthenticated);
    assert_eq!(AdapterError::Headers(MergeError::TooManyNames).rpc_code(), RpcCode::Internal);
}

#[test]
fn grpc_keys_must_not_name_binary_entries() {
    let binary = pairs(&[("x-data-bin", "abc")]);
    assert_eq!(merge_headers(MetadataMap::new(), &binary).err(), Some(MergeError::InvalidName));
    let headers = merge_headers(HeaderMap::new(), &binary).unwrap();
    assert_eq!(headers.get("x-data-bin").unwrap(), "abc");
}

#[test]
fn names_are_token_characters_of_bounded_length() {
    for good in ["authorization", "x-goog-user-project", "a", "!#$%&'*+-.^_`|~09AZaz"] {
        let one = pairs(&[(good, "v")]);
        assert!(merge_headers(HeaderMap::new(), &one).is_ok(), "{}", good);
        assert!(merge_headers(MetadataMap::new(), &one).is_ok(), "{}", good);
    }
    for bad in ["", "a b", "a:b", "a/b", "a(b", "a\"b", "a,b", "a;b", "a=b", "a@b", "a[b", "a{b", "caf\u{e9}", "a\u{0}", "a\u{7f}"] {
        let one = pairs(&[(bad, "v")]);
        assert_eq!(merge_headers(HeaderMap::new(), &one).err(), Some(MergeError::InvalidName), "{}", bad);
        assert_eq!(merge_headers(MetadataMap::new(), &one).err(), Some(MergeError::InvalidName), "{}", bad);
    }
    let longest = "a".repeat(65535);
    let merged = merge_headers(HeaderMap::new(), &pairs(&[(longest.as_str(), "v")])).unwrap();
    assert_eq!(merged.get(longest.as_str()).unwrap(), "v");
    assert!(merge_headers(MetadataMap::new(), &pairs(&[(longest.as_str(), "v")])).is_ok());
    let too_long = "a".repeat(65536);
    let one = pairs(&[(too_long.as_str(), "v")]);
    assert_eq!(merge_headers(HeaderMap::new(), &one).err(), Some(MergeError::InvalidName));
    assert_eq!(merge_headers(MetadataMap::new(), &one).err(), Some(MergeError::InvalidName));
    let mixed_long = format!("X-{}", "B".repeat(100));
    let merged = merge_headers(HeaderMap::new(), &pairs(&[(mixed_long.as_str(), "v")])).unwrap();
    assert_eq!(merged.keys().next().unwrap().as_str(), mixed_long.to_lowercase());
}

#[test]
fn binary_ending_is_judged_in_lower_case() {
    for bin in ["x-bin", "-bin", "X-BIN", "x-Bin"] {
        let one = pairs(&[(bin, "v")]);
        assert_eq!(merge_headers(MetadataMap::new(), &one).err(), Some(MergeError::InvalidName), "{}", bin);
        assert!(merge_headers(HeaderMap::new(), &one).is_ok(), "{}", bin);
    }
    for text in ["bin", "x-bin-", "x-bi", "x_bin", "x-bin2"] {
        assert!(merge_headers(MetadataMap::new(), &pairs(&[(text, "v")])).is_ok(), "{}", text);
    }
}

#[test]
fn names_are_stored_in_lower_case() {
    let mixed = pairs(&[("X-Custom", "1"), ("x-custom", "2")]);
    let metadata = merge_headers(MetadataMap::new(), &mixed).unwrap();
    assert_eq!(metadata.keys_len(), 1);
    assert_eq!(metadata.get("x-custom").unwrap(), "2");
    let headers = merge_headers(HeaderMap::new(), &mixed).unwrap();
    assert_eq!(headers.keys_len(), 1);
    assert_eq!(headers.get("x-custom").unwrap(), "2");
}

#[test]
fn later_pairs_win_and_other_names_stay() {
    let mut headers = HeaderMap::new();
    headers.insert("x-keep", HeaderValue::from_static("kept"));
    headers.insert("x-a", HeaderValue::from_static("old"));
    let merged = merge_headers(headers, &pairs(&[("x-a", "1"), ("x-b", "2"), ("x-a", "3")])).unwrap();
    assert_eq!(merged.keys_len(), 3);
    assert_eq!(merged.get("x-keep").unwrap(), "kept");
    assert_eq!(merged.get("x-a").unwrap(), "3");
    assert_eq!(merged.get_all("x-a").iter().count(), 1);
    assert_eq!(merged.get("x-b").unwrap(), "2");
}

#[test]
fn merging_nothing_changes_nothing() {
    let mut headers = HeaderMap::new();
    headers.insert("x-keep", HeaderValue::from_static("kept"));
    let merged = merge_headers(headers.clone(), &Vec::new()).unwrap();
    assert_eq!(merged, headers);
}

#[test]
fn a_full_request_is_rejected() {
    assert_eq!(MAX_NAMES, 6554);
    let mut headers = HeaderMap::new();
    let mut metadata = MetadataMap::new();
    for i in 0..MAX_NAMES {
        let name = format!("x-{}", i);
        headers.insert(name.parse::<tonic::codegen::http::HeaderName>().unwrap(), HeaderValue::from_static("v"));
        metadata.insert(name.parse::<tonic::metadata::AsciiMetadataKey>().unwrap(), "v".parse().unwrap());
    }
    let one = pairs(&[("x-0", "again")]);
    assert_eq!(merge_headers(headers.clone(), &one).err(), Some(MergeError::TooManyNames));
    assert_eq!(merge_headers(metadata.clone(), &one).err(), Some(MergeError::TooManyNames));
    assert_eq!(merge_headers(headers.clone(), &Vec::new()).unwrap().keys_len(), MAX_NAMES);
    headers.remove("x-0");
    let merged = merge_headers(headers, &pairs(&[("x-new", "1"), ("x-new", "2")])).err();
    assert_eq!(merged, Some(MergeError::TooManyNames));
    metadata.remove("x-0");
    let merged = merge_headers(metadata, &pairs(&[("x-new", "1")])).unwrap();
    assert_eq!(merged.keys_len(), MAX_NAMES);
}

#[test]
fn hyper_client_merges_into_http_headers() {
    let mut client = HyperTracerClient::new(gcp("proj-1"));
    let mut headers = HeaderMap::new();
    headers.insert("content-type", HeaderValue::from_static("application/x-protobuf"));
    let back = match client.get_token(headers, request(7)) {
        Intercepted::Fetch(back) => back,
        _ => panic!("expected a fetch"),
    };
    assert_eq!(back.len(), 1);
    let out = forwarded(client.get_token(back, fetched("tok-A", 7)));
    assert_eq!(out.len(), 3);
    assert_eq!(out.get("authorization").unwrap(), "Bearer tok-A");
    assert_eq!(out.get("x-goog-user-project").unwrap(), "proj-1");
    assert_eq!(out.get("content-type").unwrap(), "application/x-protobuf");
    let e = rejected(client.get_token(
        HeaderMap::new(),
        AuthEvent::Fetched { result: Err(FetchError::MissingToken), now: Some(Timestamp::from_secs(900)) },
    ));
    assert_eq!(e, AdapterError::Credentials(FetchError::MissingToken));
}

#[test]
fn reqwest_client_merges_into_http_headers() {
    let mut client = ReqwestTracerClient::new(gcp("proj-2"));
    assert!(matches!(client.get_token(HeaderMap::new(), request(7)), Intercepted::Fetch(_)));
    let out = forwarded(client.get_token(HeaderMap::new(), fetched("tok-A", 7)));
    assert_eq!(out.len(), 2);
    assert_eq!(out.get("authorization").unwrap(), "Bearer tok-A");
    assert_eq!(out.get("x-goog-user-project").unwrap(), "proj-2");
    let stale = client.get_token(HeaderMap::new(), request(7 + 601));
    assert!(matches!(stale, Intercepted::Fetch(_)));
    let mut plain = ReqwestTracerClient::new(TokenProvider::Unauthenticated(Unauthenticated::new()));
    let out = forwarded(plain.get_token(HeaderMap::new(), request(7)));
    assert!(out.is_empty());
    let mut broken = ReqwestTracerClient::new(gcp("proj\u{0}"));
    let e = rejected(broken.get_token(HeaderMap::new(), fetched("tok", 1)));
    assert_eq!(e, AdapterError::Headers(MergeError::InvalidValue));
}
