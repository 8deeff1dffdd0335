use votablit::error::AppError;
use votablit::extractors::{extract_client_ip, is_valid_model_id, AdminAuth};

// -- Fly-Client-IP takes priority --

#[test]
fn fly_client_ip_preferred_over_xff() {
    assert_eq!(extract_client_ip(Some("1.2.3.4"), Some("5.6.7.8"), None), "1.2.3.4");
}

#[test]
fn fly_client_ip_single() {
    assert_eq!(extract_client_ip(Some("203.0.113.50"), None, None), "203.0.113.50");
}

// -- X-Forwarded-For uses LAST entry --

#[test]
fn forwarded_for_uses_last_entry() {
    let ip = extract_client_ip(None, Some("spoofed-ip, 70.41.3.18, 150.172.238.178"), None);
    assert_eq!(ip, "150.172.238.178");
}

#[test]
fn forwarded_for_single_ip() {
    assert_eq!(extract_client_ip(None, Some("203.0.113.50"), None), "203.0.113.50");
}

#[test]
fn forwarded_for_with_whitespace() {
    assert_eq!(extract_client_ip(None, Some("fake, 203.0.113.50  "), None), "203.0.113.50");
}

#[test]
fn forwarded_for_empty_falls_back_to_socket() {
    assert_eq!(extract_client_ip(None, Some(""), Some("127.0.0.1")), "127.0.0.1");
}

// -- Socket fallback --

#[test]
fn no_forwarded_for_uses_socket() {
    assert_eq!(extract_client_ip(None, None, Some("10.0.0.1")), "10.0.0.1");
}

#[test]
fn no_forwarded_for_no_socket_returns_unknown() {
    assert_eq!(extract_client_ip(None, None, None), "unknown");
}

#[test]
fn forwarded_for_whitespace_only_falls_back() {
    assert_eq!(extract_client_ip(None, Some("   "), Some("127.0.0.1")), "127.0.0.1");
}

#[test]
fn blank_fly_client_ip_falls_back_to_forwarded_for() {
    assert_eq!(extract_client_ip(Some(" \t"), Some("a, 9.9.9.9"), Some("1.1.1.1")), "9.9.9.9");
}

#[test]
fn forwarded_for_trailing_comma_falls_back() {
    assert_eq!(extract_client_ip(None, Some("1.2.3.4,"), Some("10.0.0.2")), "10.0.0.2");
}

#[test]
fn fly_client_ip_is_trimmed() {
    assert_eq!(extract_client_ip(Some("  8.8.8.8\n"), None, None), "8.8.8.8");
}

// -- model_id validation --

#[test]
fn valid_model_ids() {
    assert!(is_valid_model_id("meta-llama/Llama-3-8B"));
    assert!(is_valid_model_id("Qwen/Qwen2.5-7B"));
    assert!(is_valid_model_id("simple_model"));
}

#[test]
fn invalid_model_ids() {
    assert!(!is_valid_model_id(""));
    assert!(!is_valid_model_id("has spaces"));
    assert!(!is_valid_model_id("<script>alert(1)</script>"));
    assert!(!is_valid_model_id("new\nline"));
}

#[test]
fn non_ascii_model_ids_are_refused() {
    assert!(!is_valid_model_id("modèle"));
    assert!(!is_valid_model_id("org/模型"));
    assert!(is_valid_model_id("a.b-c_d/E9"));
}

// -- admin token --

#[test]
fn admin_token_accepted() {
    assert!(AdminAuth::authorize("test-secret-token", Some("Bearer test-secret-token")).is_ok());
}

#[test]
fn admin_token_missing_header() {
    match AdminAuth::authorize("test-secret-token", None) {
        Err(AppError::Unauthorized(m)) => assert_eq!(m, "Missing or invalid admin token"),
        other => panic!("unexpected: {:?}", other.map(|_| ())),
    }
}

#[test]
fn admin_token_wrong_scheme() {
    match AdminAuth::authorize("test-secret-token", Some("Basic test-secret-token")) {
        Err(AppError::Unauthorized(m)) => assert_eq!(m, "Missing or invalid admin token"),
        other => panic!("unexpected: {:?}", other.map(|_| ())),
    }
}

#[test]
fn admin_token_wrong_token() {
    match AdminAuth::authorize("test-secret-token", Some("Bearer wrong-token")) {
        Err(e) => {
            assert_eq!(e.status_code(), 401);
            assert_eq!(e.message(), "Invalid or missing admin token");
        }
        Ok(_) => panic!("wrong token accepted"),
    }
}

#[test]
fn admin_token_prefix_of_token_refused() {
    assert!(AdminAuth::authorize("test-secret-token", Some("Bearer test-secret")).is_err());
    assert!(AdminAuth::authorize("test-secret-token", Some("Bearer test-secret-token ")).is_err());
}

#[test]
fn admin_token_not_configured() {
    match AdminAuth::authorize("", Some("Bearer ")) {
        Err(e) => {
            assert_eq!(e.status_code(), 500);
            assert_eq!(e.message(), "ADMIN_TOKEN not configured");
        }
        Ok(_) => panic!("empty token accepted"),
    }
}
