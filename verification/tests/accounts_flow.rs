use auth_core::accounts::{
    user_login, user_register, user_register_finish, AuthBody, ReaderRecord, UserLoginPayload,
    UserRecord, UserRegisterPayload,
};
use auth_core::claims::{ReaderClaims, UserClaims};
use auth_core::guard::extract_reader_claims;
use auth_core::guard::extract_user_claims;
use auth_core::keys::Keys;
use auth_core::password::{hash_password, verify_password};

fn alice_record(password_hash: String) -> UserRecord {
    UserRecord {
        id: "u-100".to_string(),
        name: "alice".to_string(),
        password: password_hash,
        permission: "all".to_string(),
        user_type_id: "t-admin".to_string(),
    }
}

#[test]
fn register_free_username_builds_admin_row() {
    let payload = UserRegisterPayload {
        username: "alice".to_string(),
        password: "secret123".to_string(),
    };
    let new_user = user_register(None, payload, "t-admin").unwrap();
    assert_eq!(new_user.name, "alice");
    assert_eq!(new_user.permission, "all");
    assert_eq!(new_user.user_type_id, "t-admin");
    // The stored credential is a hash the original password verifies against,
    // never the plaintext itself.
    assert_ne!(new_user.password, "secret123");
    assert!(verify_password("secret123", &new_user.password));
}

#[test]
fn register_taken_username_conflicts() {
    let existing = alice_record("$2b$12$irrelevant".to_string());
    let payload = UserRegisterPayload {
        username: "alice".to_string(),
        password: "secret123".to_string(),
    };
    let err = user_register(Some(&existing), payload, "t-admin").unwrap_err();
    assert_eq!(err.status_code, 409);
    assert_eq!(err.code, "username_conflict");
    assert_eq!(err.detail, "User with name `alice` already exists");
}

#[test]
fn second_registration_sees_first_insert() {
    // Two attempts with the same username: the first finds the name free,
    // the second looks up after the first's insert and must conflict.
    let first_payload = UserRegisterPayload {
        username: "alice".to_string(),
        password: "secret123".to_string(),
    };
    let new_user = user_register(None, first_payload, "t-admin").unwrap();
    let inserted = alice_record(new_user.password);

    let second_payload = UserRegisterPayload {
        username: "alice".to_string(),
        password: "other-pass".to_string(),
    };
    let err = user_register(Some(&inserted), second_payload, "t-admin").unwrap_err();
    assert_eq!(err.status_code, 409);
    assert_eq!(err.code, "username_conflict");
}

#[test]
fn register_then_login_round_trip() {
    let keys = Keys::new(b"top-secret");
    let now: usize = 1_700_000_000;

    let payload = UserRegisterPayload {
        username: "alice".to_string(),
        password: "secret123".to_string(),
    };
    let new_user = user_register(None, payload, "t-admin").unwrap();
    let stored = alice_record(new_user.password.clone());

    let body: AuthBody = user_register_finish(&stored, &keys, now).unwrap();
    assert_eq!(body.token_type, "Bearer");

    let login_payload = UserLoginPayload {
        username: "alice".to_string(),
        password: "secret123".to_string(),
    };
    let login_body = user_login(Some(stored), login_payload, &keys, now).unwrap();
    assert_eq!(login_body.token_type, "Bearer");
    // Both paths sign the same claims, so the tokens agree.
    assert_eq!(login_body.access_token, body.access_token);

    let header = format!("Bearer {}", login_body.access_token);
    let claims = extract_user_claims(Some(header.as_str()), &keys, now).unwrap();
    assert_eq!(claims.name, "alice");
    assert_eq!(claims.id, "u-100");
    assert_eq!(claims.permission, "all");
    assert_eq!(claims.exp, now + 3600 * 24 * 30);
}

#[test]
fn login_wrong_password_rejected() {
    let keys = Keys::new(b"top-secret");
    let hash = hash_password("secret123").unwrap();
    let stored = alice_record(hash);
    let payload = UserLoginPayload {
        username: "alice".to_string(),
        password: "wrong-pass".to_string(),
    };
    let err = user_login(Some(stored), payload, &keys, 0).unwrap_err();
    assert_eq!(err.status_code, 401);
    assert_eq!(err.code, "wrong_credentials");
    assert_eq!(err.detail, "Wrong credentials");
}

#[test]
fn login_unknown_user_not_found() {
    let keys = Keys::new(b"top-secret");
    let payload = UserLoginPayload {
        username: "nobody".to_string(),
        password: "whatever".to_string(),
    };
    let err = user_login(None, payload, &keys, 0).unwrap_err();
    assert_eq!(err.status_code, 404);
    assert_eq!(err.code, "user_not_exists");
    assert_eq!(err.detail, "User with name `nobody`, not exists");
}

#[test]
fn wrong_password_fails_verification() {
    let hash = hash_password("secret123").unwrap();
    assert!(verify_password("secret123", &hash));
    assert!(!verify_password("secret124", &hash));
    assert!(!verify_password("", &hash));
}

#[test]
fn hash_is_self_describing_and_salted() {
    let first = hash_password("secret123").unwrap();
    let second = hash_password("secret123").unwrap();
    assert_eq!(first.len(), 60);
    assert!(first.starts_with("$2"));
    // A fresh salt each time: equal inputs still hash differently.
    assert_ne!(first, second);
    assert!(verify_password("secret123", &second));
}

#[test]
fn malformed_stored_hash_never_matches() {
    assert!(!verify_password("secret123", "not-a-bcrypt-hash"));
}

#[test]
fn reader_claims_issue_and_extract() {
    let keys = Keys::new(b"top-secret");
    let now: usize = 1_700_000_000;
    let reader = ReaderRecord {
        id: "r-5".to_string(),
        name: "bob".to_string(),
        library_card_id: "42".to_string(),
    };
    let claims = ReaderClaims::from_reader(&reader, now);
    assert_eq!(claims.exp, now + 3600 * 24 * 30);
    let token = claims.sign(&keys).unwrap();
    let header = format!("Bearer {}", token);
    let got = extract_reader_claims(Some(header.as_str()), &keys, now).unwrap();
    assert_eq!(got.name, "bob");
    assert_eq!(got.library_card_id, "42");
    assert_eq!(got.id, "r-5");
}

#[test]
fn user_claims_expiry_from_issuance() {
    let record = alice_record("h".to_string());
    let claims = UserClaims::from_user(&record, 1000);
    assert_eq!(claims.exp, 1000 + 3600 * 24 * 30);
    assert_eq!(claims.id, "u-100");
    assert_eq!(claims.name, "alice");
    assert_eq!(claims.permission, "all");
}

#[test]
fn auth_body_carries_bearer_scheme() {
    let body = AuthBody::new("tok".to_string());
    assert_eq!(body.access_token, "tok");
    assert_eq!(body.token_type, "Bearer");
}
