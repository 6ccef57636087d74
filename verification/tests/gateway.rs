use quantun::auth::{ApiKey, AuthConfig, AuthDecision};
use quantun::policy::{build_tls_config, classify_cipher_suite, enforce_pqc_policy, TlsPolicy};
use quantun::proxy::{ProxyService, Route, Upstream};
use quantun::tls_config::TlsVersion;

fn test_upstream() -> Upstream {
    Upstream {
        name: "test-svc".into(),
        host: "127.0.0.1".into(),
        port: 8080,
        is_healthy: true,
        tls_verify: false,
    }
}

#[test]
fn test_find_route() {
    let routes = vec![
        Route {
            path_prefix: "/api".into(),
            upstream: test_upstream(),
            strip_prefix: false,
            priority: 100,
        },
        Route {
            path_prefix: "/api/v2".into(),
            upstream: test_upstream(),
            strip_prefix: true,
            priority: 200,
        },
    ];

    let svc = ProxyService::new(routes, 30);

    let route = svc.find_route("/api/v2/users").unwrap();
    assert_eq!(route.path_prefix, "/api/v2");

    let route = svc.find_route("/api/v1/keys").unwrap();
    assert_eq!(route.path_prefix, "/api");

    assert!(svc.find_route("/other").is_none());
}

#[test]
fn unhealthy_upstream_is_skipped() {
    let mut up = test_upstream();
    up.is_healthy = false;
    let routes = vec![Route {
        path_prefix: "/api".into(),
        upstream: up,
        strip_prefix: false,
        priority: 100,
    }];
    let svc = ProxyService::new(routes, 30);
    assert!(svc.find_route("/api/v1").is_none());
}

#[test]
fn upstream_path_strips_prefix() {
    let mut route = Route {
        path_prefix: "/api/v2".into(),
        upstream: test_upstream(),
        strip_prefix: true,
        priority: 200,
    };
    assert_eq!(quantun::proxy::upstream_path(&route, "/api/v2/users"), "/users");
    assert_eq!(quantun::proxy::upstream_path(&route, "/other"), "/other");
    route.strip_prefix = false;
    assert_eq!(quantun::proxy::upstream_path(&route, "/api/v2/users"), "/api/v2/users");
}

#[test]
fn test_default_auth_config() {
    let config = AuthConfig::default();
    assert!(!config.require_auth);
    assert!(config.bypass_paths.contains(&"/health".to_string()));
}

#[test]
fn authorize_decisions() {
    let config = AuthConfig {
        require_auth: true,
        api_keys: vec![ApiKey {
            id: "key-1".into(),
            name: "primary".into(),
            scopes: vec!["read".into()],
        }],
        bypass_paths: vec!["/health".into()],
    };
    assert_eq!(
        quantun::auth::authorize(&config, "/health/live", None),
        AuthDecision::Allow
    );
    assert_eq!(
        quantun::auth::authorize(&config, "/api", None),
        AuthDecision::Unauthorized
    );
    assert_eq!(
        quantun::auth::authorize(&config, "/api", Some("nope")),
        AuthDecision::Forbidden
    );
    assert_eq!(
        quantun::auth::authorize(&config, "/api", Some("key-1")),
        AuthDecision::Allow
    );
    let off = AuthConfig::default();
    assert_eq!(
        quantun::auth::authorize(&off, "/api", None),
        AuthDecision::Allow
    );
}

#[test]
fn test_pqc_classification_in_middleware() {
    assert!(classify_cipher_suite("TLS_ML-KEM-768_AES_256_GCM"));
    assert!(!classify_cipher_suite("TLS_ECDHE_RSA_AES_256_GCM"));
}

#[test]
fn test_classify_cipher_suite() {
    assert!(classify_cipher_suite("TLS_ML-KEM-768_AES_256_GCM_SHA384"));
    assert!(!classify_cipher_suite("TLS_AES_256_GCM_SHA384"));
}

#[test]
fn test_build_tls_config_pqc_preferred() {
    let config = build_tls_config(TlsPolicy::PqcPreferred).unwrap();
    assert_eq!(config.min_tls_version, TlsVersion::Tls13);
    assert!(config.hybrid_mode);
    assert!(!config.preferred_algorithms.is_empty());
}

#[test]
fn build_tls_config_classical_allowed_fails() {
    assert!(build_tls_config(TlsPolicy::ClassicalAllowed).is_err());
}

#[test]
fn pqc_enforcement_decisions() {
    assert!(!enforce_pqc_policy(
        TlsPolicy::PqcOnly,
        "TLS_AES_256_GCM_SHA384",
        "/api"
    ));
    assert!(enforce_pqc_policy(
        TlsPolicy::PqcOnly,
        "TLS_AES_256_GCM_SHA384",
        "/health"
    ));
    assert!(enforce_pqc_policy(
        TlsPolicy::PqcOnly,
        "TLS_ML-KEM-768_AES_256_GCM_SHA384",
        "/api"
    ));
    assert!(enforce_pqc_policy(
        TlsPolicy::ClassicalAllowed,
        "TLS_AES_256_GCM_SHA384",
        "/api"
    ));
}
