//! The secure transport: constant-time comparison, HMAC signing, request
//! plans, TLS decisions, and the retry policy.
use update_agent::config::AgentConfig;
use update_agent::http_client::constant_time_eq;
use update_agent::http_client::tls_plan;
use update_agent::http_client::SecretKey;
use update_agent::http_client::SecureHttpClient;
use update_agent::retry::run_retry_policy;
use update_agent::retry::HttpOutcome;
use update_agent::retry::RetryResult;

#[test]
fn test_constant_time_eq() {
    assert!(constant_time_eq(b"hello", b"hello"));
    assert!(!constant_time_eq(b"hello", b"world"));
    assert!(!constant_time_eq(b"hello", b"hell"));
}

#[test]
fn test_hmac_signature() {
    let key = SecretKey::new(b"test-key".to_vec());
    let client = SecureHttpClient::new(&AgentConfig::default(), None, None);

    let payload = r#"{"test": "data"}"#;

    let signature = client.create_hmac_signature(payload, &key);
    assert_eq!(signature, "J5dCmWlB6XS+kCbodstsseaFeT5G9GzFAIQkQjILkVc=");
    assert!(client.verify_hmac_signature(payload, &signature, &key));
    assert!(!client.verify_hmac_signature(payload, "J5dCmWlB6XS+kCbodstsseaFeT5G9GzFAIQkQjILkVd=", &key));
    assert!(!client.verify_hmac_signature("other payload", &signature, &key));
}

#[test]
fn test_hmac_known_vector() {
    // RFC 4231, test case 2, in base64.
    let key = SecretKey::new(b"Jefe".to_vec());
    let client = SecureHttpClient::new(&AgentConfig::default(), None, None);
    let signature = client.create_hmac_signature("what do ya want for nothing?", &key);
    assert_eq!(signature, "W9zBRr9gdU5qBCQmCJV1x1oAPwidJzmDnexYuWTsOEM=");
}

#[test]
fn test_secret_key_wipe() {
    let mut key = SecretKey::new(b"very secret".to_vec());
    assert_eq!(key.as_bytes(), b"very secret");
    key.wipe();
    assert!(key.as_bytes().is_empty());
}

#[test]
fn test_tls_plan_decisions() {
    let mut config = AgentConfig::default();
    let plan = tls_plan(&config.security);
    assert!(!plan.use_client_identity);
    assert!(!plan.use_custom_ca);
    assert!(!plan.accept_invalid_certs);

    // Mutual TLS silently disables when the key file is missing.
    config.security.use_mtls = true;
    config.security.cert_file = Some("/tmp/client.crt".to_string());
    let plan = tls_plan(&config.security);
    assert!(!plan.use_client_identity);

    config.security.key_file = Some("/tmp/client.key".to_string());
    let plan = tls_plan(&config.security);
    assert!(plan.use_client_identity);

    config.security.ca_file = Some("/tmp/ca.pem".to_string());
    config.security.verify_server_cert = false;
    let plan = tls_plan(&config.security);
    assert!(plan.use_custom_ca);
    assert!(plan.accept_invalid_certs);
}

#[test]
fn test_post_plan_attaches_auth_and_signature() {
    let config = AgentConfig::default();
    let client = SecureHttpClient::new(
        &config,
        Some(b"api-key-123".to_vec()),
        Some(b"hmac-key".to_vec()),
    );
    let plan = client.post_plan("/api/v1/report", "{\"x\":1}".to_string()).unwrap();
    assert_eq!(plan.url, "http://localhost:8080/api/v1/report");
    assert_eq!(plan.bearer.as_deref(), Some("api-key-123"));
    assert_eq!(plan.body, "{\"x\":1}");

    let key = SecretKey::new(b"hmac-key".to_vec());
    let expected = client.create_hmac_signature("{\"x\":1}", &key);
    assert_eq!(plan.signature, Some(expected));
}

#[test]
fn test_post_plan_without_keys() {
    let config = AgentConfig::default();
    let client = SecureHttpClient::new(&config, None, None);
    let plan = client.post_plan("/api/v1/report", "{}".to_string()).unwrap();
    assert!(plan.bearer.is_none());
    assert!(plan.signature.is_none());
}

#[test]
fn test_post_plan_rejects_non_utf8_key() {
    let config = AgentConfig::default();
    let client = SecureHttpClient::new(&config, Some(vec![0xff, 0xfe]), None);
    assert!(client.post_plan("/api/v1/report", "{}".to_string()).is_err());
}

#[test]
fn test_get_plan() {
    let config = AgentConfig::default();
    let client = SecureHttpClient::new(&config, Some(b"token".to_vec()), None);
    let plan = client.get_plan("/api/v1/health").unwrap();
    assert_eq!(plan.url, "http://localhost:8080/api/v1/health");
    assert_eq!(plan.bearer.as_deref(), Some("token"));
}

fn status(code: u16) -> HttpOutcome {
    HttpOutcome::Status { code, body: format!("status {}", code) }
}

#[test]
fn test_persistent_server_error_exhausts_retries() {
    // A server that always answers 503 is contacted exactly n + 1 times,
    // with doubling backoff.
    for n in 0..4u32 {
        let outcomes: Vec<HttpOutcome> = (0..n + 1).map(|_| status(503)).collect();
        let report = run_retry_policy(outcomes, n, 5);
        assert_eq!(report.attempts, u64::from(n) + 1);
        let expected: Vec<u64> = (0..n).map(|i| 5 * (1u64 << i)).collect();
        assert_eq!(report.delays_ms, expected);
        match report.result {
            RetryResult::Exhausted { last: HttpOutcome::Status { code, .. } } => {
                assert_eq!(code, 503)
            }
            _ => panic!("expected exhaustion"),
        }
    }
}

#[test]
fn test_client_error_is_never_retried() {
    // A single 404 means exactly one contact, whatever the budget.
    let outcomes = vec![status(404), status(200), status(200), status(200)];
    let report = run_retry_policy(outcomes, 3, 1000);
    assert_eq!(report.attempts, 1);
    assert!(report.delays_ms.is_empty());
    match report.result {
        RetryResult::ClientError { code, .. } => assert_eq!(code, 404),
        _ => panic!("expected a client error"),
    }
}

#[test]
fn test_success_returns_at_once() {
    let outcomes = vec![status(201), status(500)];
    let report = run_retry_policy(outcomes, 1, 10);
    assert_eq!(report.attempts, 1);
    match report.result {
        RetryResult::Success { code, .. } => assert_eq!(code, 201),
        _ => panic!("expected success"),
    }
}

#[test]
fn test_transport_errors_are_retried_until_success() {
    let outcomes = vec![
        HttpOutcome::Transport { message: "connection refused".to_string() },
        HttpOutcome::Transport { message: "connection refused".to_string() },
        status(200),
    ];
    let report = run_retry_policy(outcomes, 2, 7);
    assert_eq!(report.attempts, 3);
    assert_eq!(report.delays_ms, vec![7, 14]);
    assert!(matches!(report.result, RetryResult::Success { code: 200, .. }));
}
