use rust_api_framework::auth_service::{AuthConfig, AuthService};
use rust_api_framework::gate::{AuthHeader, GateOutcome, RequestGate};
use rust_api_framework::models::auth::LoginRequest;

fn setup() -> (AuthService, RequestGate) {
    let svc = AuthService::new(AuthConfig::new("test-secret".to_string()));
    (svc, RequestGate::new())
}

#[test]
fn test_gate_public_path_bypass() {
    let (svc, gate) = setup();
    // a public path forwards with nothing attached, no header needed
    for path in ["/token", "/refresh"] {
        match gate.handle_at(&svc, path, &AuthHeader::Missing, 1_700_000_000) {
            GateOutcome::Forward(None) => {}
            _ => panic!("public path {} was not forwarded unchanged", path),
        }
    }
}

#[test]
fn test_gate_missing_header() {
    let (svc, gate) = setup();
    match gate.handle_at(&svc, "/objects", &AuthHeader::Missing, 1_700_000_000) {
        GateOutcome::ShortCircuit(e) => {
            assert_eq!(e.code, 400);
            assert!(!e.success);
            assert!(!e.error.is_empty());
            assert_eq!(e.error, "Missing authorization header");
        }
        GateOutcome::Forward(_) => panic!("request without a header was forwarded"),
    }
}

#[test]
fn test_gate_unreadable_header() {
    let (svc, gate) = setup();
    match gate.handle_at(&svc, "/objects", &AuthHeader::Unreadable, 1_700_000_000) {
        GateOutcome::ShortCircuit(e) => {
            assert_eq!(e.code, 400);
            assert_eq!(e.error, "Invalid authorization header format");
        }
        GateOutcome::Forward(_) => panic!("unreadable header was forwarded"),
    }
}

#[test]
fn test_gate_bad_prefix() {
    let (svc, gate) = setup();
    let header = AuthHeader::Text("Basic dXNlcjpwYXNz".to_string());
    match gate.handle_at(&svc, "/objects", &header, 1_700_000_000) {
        GateOutcome::ShortCircuit(e) => {
            assert_eq!(e.code, 400);
            assert_eq!(e.error, "Invalid authorization header format");
        }
        GateOutcome::Forward(_) => panic!("non-bearer header was forwarded"),
    }
}

#[test]
fn test_gate_valid_token() {
    let (svc, gate) = setup();
    let now: i64 = 1_700_000_000;
    let pair = svc
        .authenticate_at(
            &LoginRequest {
                username: "admin".to_string(),
                password: "password123".to_string(),
            },
            now,
        )
        .unwrap();
    let header = AuthHeader::Text(format!("Bearer {}", pair.access_token));
    match gate.handle_at(&svc, "/objects", &header, now) {
        GateOutcome::Forward(Some(claims)) => {
            // the downstream handler reads back the token's subject and role
            assert_eq!(claims.sub, "admin");
            assert_eq!(claims.role, "admin");
        }
        GateOutcome::Forward(None) => panic!("protected request forwarded without claims"),
        GateOutcome::ShortCircuit(e) => panic!("valid token rejected: {}", e.error),
    }
}

#[test]
fn test_gate_invalid_token() {
    let (svc, gate) = setup();
    let header = AuthHeader::Text("Bearer garbage".to_string());
    match gate.handle_at(&svc, "/objects", &header, 1_700_000_000) {
        GateOutcome::ShortCircuit(e) => {
            assert_eq!(e.code, 401);
            assert_eq!(e.error, "Invalid token");
        }
        GateOutcome::Forward(_) => panic!("garbage token was forwarded"),
    }
}

#[test]
fn test_gate_expired_token() {
    let (svc, gate) = setup();
    let now: i64 = 1_700_000_000;
    let pair = svc
        .authenticate_at(
            &LoginRequest {
                username: "admin".to_string(),
                password: "password123".to_string(),
            },
            now,
        )
        .unwrap();
    let header = AuthHeader::Text(format!("Bearer {}", pair.access_token));
    // one hour later the access token has just expired
    match gate.handle_at(&svc, "/objects", &header, now + 3600) {
        GateOutcome::ShortCircuit(e) => {
            assert_eq!(e.code, 401);
            assert_eq!(e.error, "Token expired");
        }
        GateOutcome::Forward(_) => panic!("expired token was forwarded"),
    }
}

#[test]
fn test_end_to_end_scenario() {
    let (svc, gate) = setup();
    let now: i64 = 1_700_000_000;

    // login as admin/password123: token pair with expires_in 3600
    let pair = svc
        .authenticate_at(
            &LoginRequest {
                username: "admin".to_string(),
                password: "password123".to_string(),
            },
            now,
        )
        .expect("login succeeds");
    assert!(!pair.access_token.is_empty());
    assert_eq!(pair.expires_in, 3600);

    // protected request with that token: forwarded
    let good = AuthHeader::Text(format!("Bearer {}", pair.access_token));
    assert!(matches!(
        gate.handle_at(&svc, "/employees", &good, now),
        GateOutcome::Forward(Some(_))
    ));

    // same request with no header: 400 with the error set
    match gate.handle_at(&svc, "/employees", &AuthHeader::Missing, now) {
        GateOutcome::ShortCircuit(e) => {
            assert_eq!(e.code, 400);
            assert!(!e.error.is_empty());
        }
        GateOutcome::Forward(_) => panic!("forwarded without a header"),
    }

    // same request with a garbage bearer token: 401
    let bad = AuthHeader::Text("Bearer garbage".to_string());
    match gate.handle_at(&svc, "/employees", &bad, now) {
        GateOutcome::ShortCircuit(e) => assert_eq!(e.code, 401),
        GateOutcome::Forward(_) => panic!("forwarded with a garbage token"),
    }
}

#[test]
fn test_gate_custom_public_paths() {
    let svc = AuthService::new(AuthConfig::new("test-secret".to_string()));
    let gate = RequestGate::with_public_paths(vec!["/health".to_string()]);
    assert!(matches!(
        gate.handle_at(&svc, "/health", &AuthHeader::Missing, 0),
        GateOutcome::Forward(None)
    ));
    assert!(matches!(
        gate.handle_at(&svc, "/token", &AuthHeader::Missing, 0),
        GateOutcome::ShortCircuit(_)
    ));
}
