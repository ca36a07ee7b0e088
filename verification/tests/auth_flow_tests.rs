use rust_api_framework::auth_service::{AuthConfig, AuthService};
use rust_api_framework::codec;
use rust_api_framework::errors::AuthError;
use rust_api_framework::models::auth::{Claims, LoginRequest, User};

fn service() -> AuthService {
    AuthService::new(AuthConfig::new("test-secret".to_string()))
}

#[test]
fn test_login_success() {
    let svc = service();
    let pair = svc
        .authenticate(LoginRequest {
            username: "admin".to_string(),
            password: "password123".to_string(),
        })
        .expect("seeded admin credentials log in");
    assert_eq!(pair.token_type, "Bearer");
    assert_eq!(pair.expires_in, 3600);
    assert!(!pair.access_token.is_empty());
    assert!(pair.refresh_token.is_some());
}

#[test]
fn test_login_invalid_credentials() {
    let svc = service();
    let wrong_password = svc.authenticate(LoginRequest {
        username: "admin".to_string(),
        password: "wrongpassword".to_string(),
    });
    let unknown_user = svc.authenticate(LoginRequest {
        username: "nobody".to_string(),
        password: "password123".to_string(),
    });
    // both failures carry the identical error value
    assert_eq!(wrong_password.unwrap_err(), AuthError::InvalidCredentials);
    assert_eq!(unknown_user.unwrap_err(), AuthError::InvalidCredentials);
}

#[test]
fn test_authenticate_then_verify() {
    let svc = service();
    let pair = svc
        .authenticate_at(
            &LoginRequest {
                username: "user".to_string(),
                password: "userpass".to_string(),
            },
            1_700_000_000,
        )
        .expect("seeded user credentials log in");
    let claims = svc
        .verify_at(&pair.access_token, 1_700_000_000)
        .expect("a fresh access token verifies");
    assert_eq!(claims.sub, "user");
    assert_eq!(claims.role, "user");
    assert_eq!(claims.iat, 1_700_000_000);
    assert_eq!(claims.exp, 1_700_000_000 + 3600);
}

#[test]
fn test_codec_round_trip() {
    let claims = Claims {
        sub: "alice".to_string(),
        exp: 2_000_000_000,
        iat: 1_000_000_000,
        role: "admin".to_string(),
    };
    let token = codec::encode(&claims, "s3cr3t");
    let back = codec::decode(&token, "s3cr3t").expect("a fresh token decodes");
    assert_eq!(back.sub, "alice");
    assert_eq!(back.exp, 2_000_000_000);
    assert_eq!(back.iat, 1_000_000_000);
    assert_eq!(back.role, "admin");
}

#[test]
fn test_codec_tamper_rejected() {
    let claims = Claims {
        sub: "alice".to_string(),
        exp: 2_000_000_000,
        iat: 1_000_000_000,
        role: "admin".to_string(),
    };
    let token = codec::encode(&claims, "s3cr3t");
    // flip one byte anywhere in the token: every such mutation must fail
    let bytes = token.as_bytes();
    for i in 0..bytes.len() {
        let mut mutated = bytes.to_vec();
        mutated[i] = if mutated[i] == b'A' { b'B' } else { b'A' };
        if mutated[i] == bytes[i] {
            continue;
        }
        let mutated = String::from_utf8(mutated).unwrap();
        assert!(
            codec::decode(&mutated, "s3cr3t").is_err(),
            "mutation at byte {} was accepted",
            i
        );
    }
}

#[test]
fn test_wrong_secret_rejected() {
    let claims = Claims {
        sub: "alice".to_string(),
        exp: 2_000_000_000,
        iat: 1_000_000_000,
        role: "admin".to_string(),
    };
    let token = codec::encode(&claims, "secret-one");
    assert!(codec::decode(&token, "secret-two").is_err());
}

#[test]
fn test_garbage_token_rejected() {
    let svc = service();
    assert_eq!(
        svc.verify_at("garbage", 1_700_000_000).unwrap_err(),
        AuthError::InvalidToken
    );
    assert_eq!(
        svc.verify_at("", 1_700_000_000).unwrap_err(),
        AuthError::InvalidToken
    );
}

#[test]
fn test_expired_token_rejected() {
    let svc = service();
    let now: i64 = 1_700_000_000;
    let claims = Claims {
        sub: "admin".to_string(),
        exp: now - 1,
        iat: now - 3601,
        role: "admin".to_string(),
    };
    let (structurally, verified) = svc.expired_token_rejected(&claims, now);
    // the codec alone accepts the token; verification rejects it as expired
    assert!(structurally.is_ok());
    assert_eq!(verified.unwrap_err(), AuthError::TokenExpired);
}

#[test]
fn test_refresh_rotation() {
    let svc = service();
    let now: i64 = 1_700_000_000;
    let pair = svc
        .authenticate_at(
            &LoginRequest {
                username: "admin".to_string(),
                password: "password123".to_string(),
            },
            now,
        )
        .unwrap();
    let refresh = pair.refresh_token.unwrap();
    // the same refresh token redeems twice: stateless, no single use
    let first = svc.refresh_at(&refresh, now + 10).expect("first redemption");
    let second = svc.refresh_at(&refresh, now + 20).expect("second redemption");
    assert_ne!(first.access_token, second.access_token);
    assert_eq!(first.expires_in, 3600);
    assert_eq!(second.expires_in, 3600);
}

#[test]
fn test_refresh_expired_token() {
    let svc = service();
    let now: i64 = 1_700_000_000;
    let pair = svc
        .authenticate_at(
            &LoginRequest {
                username: "admin".to_string(),
                password: "password123".to_string(),
            },
            now,
        )
        .unwrap();
    let refresh = pair.refresh_token.unwrap();
    // seven days later the refresh token itself has expired
    assert_eq!(
        svc.refresh_at(&refresh, now + 604800).unwrap_err(),
        AuthError::TokenExpired
    );
}

#[test]
fn test_refresh_unknown_principal() {
    let svc = service();
    let now: i64 = 1_700_000_000;
    let ghost_claims = Claims {
        sub: "ghost".to_string(),
        exp: now + 1000,
        iat: now,
        role: "user".to_string(),
    };
    let token = codec::encode(&ghost_claims, "test-secret");
    assert_eq!(
        svc.refresh_at(&token, now).unwrap_err(),
        AuthError::PrincipalNotFound
    );
}

#[test]
fn test_user_password_verification() {
    let user = User::new(
        "carol".to_string(),
        "pa55word".to_string(),
        "user".to_string(),
    );
    assert_eq!(user.username, "carol");
    assert_eq!(user.role, "user");
    assert!(user.verify_password("pa55word"));
    assert!(!user.verify_password("pa55word "));
    assert!(!user.verify_password(""));
}

#[test]
fn test_codec_negative_timestamps() {
    // the codec is policy-free: timestamps before the epoch round-trip too
    let claims = Claims {
        sub: "alice".to_string(),
        exp: -5,
        iat: -3600,
        role: "user".to_string(),
    };
    let token = codec::encode(&claims, "s3cr3t");
    let back = codec::decode(&token, "s3cr3t").expect("a pre-epoch window still decodes");
    assert_eq!(back.exp, -5);
    assert_eq!(back.iat, -3600);
}
