use auth_core::claims::{ReaderClaims, UserClaims};
use auth_core::error::AuthError;
use auth_core::guard::{extract_reader_claims, extract_user_claims};
use auth_core::keys::Keys;

fn user_claims(exp: usize) -> UserClaims {
    UserClaims {
        id: "user-1".to_string(),
        name: "alice".to_string(),
        permission: "all".to_string(),
        exp,
    }
}

fn reader_claims(exp: usize) -> ReaderClaims {
    ReaderClaims {
        id: "reader-1".to_string(),
        name: "bob".to_string(),
        library_card_id: "42".to_string(),
        exp,
    }
}

fn bearer(token: &str) -> String {
    format!("Bearer {}", token)
}

#[test]
fn round_trip_user() {
    let keys = Keys::new(b"top-secret");
    let claims = user_claims(1_000_000);
    let token = claims.sign(&keys).unwrap();
    let header = bearer(&token);
    let got = extract_user_claims(Some(header.as_str()), &keys, 999_999).unwrap();
    assert_eq!(got.id, "user-1");
    assert_eq!(got.name, "alice");
    assert_eq!(got.permission, "all");
    assert_eq!(got.exp, 1_000_000);
}

#[test]
fn round_trip_reader() {
    let keys = Keys::new(b"top-secret");
    let claims = reader_claims(1_000_000);
    let token = claims.sign(&keys).unwrap();
    let header = bearer(&token);
    let got = extract_reader_claims(Some(header.as_str()), &keys, 12).unwrap();
    assert_eq!(got.id, "reader-1");
    assert_eq!(got.name, "bob");
    assert_eq!(got.library_card_id, "42");
    assert_eq!(got.exp, 1_000_000);
}

#[test]
fn cross_key_rejected() {
    let k1 = Keys::new(b"first-key");
    let k2 = Keys::new(b"second-key");
    let token = user_claims(1_000_000).sign(&k1).unwrap();
    let header = bearer(&token);
    let got = extract_user_claims(Some(header.as_str()), &k2, 0);
    assert!(matches!(got, Err(AuthError::InvalidToken)));
}

#[test]
fn expired_token_rejected() {
    let keys = Keys::new(b"top-secret");
    let token = user_claims(1000).sign(&keys).unwrap();
    let header = bearer(&token);
    // The signature is valid; only the expiry decides.
    assert!(extract_user_claims(Some(header.as_str()), &keys, 999).is_ok());
    assert!(matches!(
        extract_user_claims(Some(header.as_str()), &keys, 1000),
        Err(AuthError::InvalidToken)
    ));
    assert!(matches!(
        extract_user_claims(Some(header.as_str()), &keys, 2000),
        Err(AuthError::InvalidToken)
    ));
}

#[test]
fn variant_fail_closed() {
    let keys = Keys::new(b"top-secret");
    let reader_token = reader_claims(1_000_000).sign(&keys).unwrap();
    let header = bearer(&reader_token);
    assert!(matches!(
        extract_user_claims(Some(header.as_str()), &keys, 0),
        Err(AuthError::InvalidToken)
    ));

    let user_token = user_claims(1_000_000).sign(&keys).unwrap();
    let header = bearer(&user_token);
    assert!(matches!(
        extract_reader_claims(Some(header.as_str()), &keys, 0),
        Err(AuthError::InvalidToken)
    ));
}

#[test]
fn missing_header_rejected() {
    let keys = Keys::new(b"top-secret");
    assert!(matches!(
        extract_user_claims(None, &keys, 0),
        Err(AuthError::MissingCredentials)
    ));
    assert!(matches!(
        extract_reader_claims(None, &keys, 0),
        Err(AuthError::MissingCredentials)
    ));
}

#[test]
fn wrong_scheme_rejected() {
    let keys = Keys::new(b"top-secret");
    assert!(matches!(
        extract_user_claims(Some("Basic dXNlcjpwdw=="), &keys, 0),
        Err(AuthError::MissingCredentials)
    ));
    assert!(matches!(
        extract_user_claims(Some("bearer x.y.z"), &keys, 0),
        Err(AuthError::MissingCredentials)
    ));
    assert!(matches!(
        extract_user_claims(Some(""), &keys, 0),
        Err(AuthError::MissingCredentials)
    ));
}

#[test]
fn garbage_token_rejected() {
    let keys = Keys::new(b"top-secret");
    assert!(matches!(
        extract_user_claims(Some("Bearer not-a-token"), &keys, 0),
        Err(AuthError::InvalidToken)
    ));
}

#[test]
fn tampered_token_rejected() {
    let keys = Keys::new(b"top-secret");
    let token = user_claims(1_000_000).sign(&keys).unwrap();
    let mut tampered = token.clone();
    // Flip the last signature character.
    let last = tampered.pop().unwrap();
    tampered.push(if last == 'A' { 'B' } else { 'A' });
    let header = bearer(&tampered);
    assert!(matches!(
        extract_user_claims(Some(header.as_str()), &keys, 0),
        Err(AuthError::InvalidToken)
    ));
}

#[test]
fn token_has_three_segments() {
    let keys = Keys::new(b"top-secret");
    let token = user_claims(1_000_000).sign(&keys).unwrap();
    assert_eq!(token.split('.').count(), 3);
}
