use std::time::{SystemTime, UNIX_EPOCH};

use token_auth::credential::Authentication;
use token_auth::error::{AuthError, InternalError};
use token_auth::guard::{Authenticated, Rejection};
use token_auth::hasher::PasswordHasher;
use token_auth::service::{
    authenticate, change_password, issue_at, login, login_at, signup, signup_at, validate,
};
use token_auth::store::CredentialStore;
use token_auth::token::{Algorithm, AuthClaims, JwtConfig};

fn flow_now() -> i64 {
    SystemTime::now().duration_since(UNIX_EPOCH).unwrap().as_secs() as i64
}

fn flow_hasher() -> PasswordHasher {
    PasswordHasher::new(b"pepper".to_vec())
}

fn flow_codec() -> JwtConfig {
    JwtConfig::new(b"signing secret".to_vec(), Algorithm::HS256)
}

#[test]
fn empty_fields_are_refused_before_anything_else() {
    assert!(validate("alice", "pw").is_ok());
    assert!(matches!(validate("", "pw"), Err(AuthError::Validation)));
    assert!(matches!(validate("alice", ""), Err(AuthError::Validation)));
    assert!(matches!(validate("", ""), Err(AuthError::Validation)));
    let mut store = CredentialStore::new();
    let (hasher, jwt) = (flow_hasher(), flow_codec());
    assert!(matches!(signup(&mut store, &hasher, &jwt, "", "pw"), Err(AuthError::Validation)));
    assert!(matches!(signup(&mut store, &hasher, &jwt, "alice", ""), Err(AuthError::Validation)));
    assert!(!store.contains("alice"));
    assert!(!store.contains(""));
    assert!(matches!(login(&store, &hasher, &jwt, "", "pw"), Err(AuthError::Validation)));
    assert!(matches!(login(&store, &hasher, &jwt, "alice", ""), Err(AuthError::Validation)));
}

#[test]
fn signup_then_login_gives_a_token_for_the_user() {
    let mut store = CredentialStore::new();
    let (hasher, jwt) = (flow_hasher(), flow_codec());
    let before = flow_now();
    let first = signup(&mut store, &hasher, &jwt, "alice", "p1").unwrap();
    let second = login(&store, &hasher, &jwt, "alice", "p1").unwrap();
    let after = flow_now();
    for token in [first, second] {
        let claims = jwt.decode(&token).unwrap();
        assert_eq!(claims.username(), "alice");
        assert_eq!(claims.version(), 0);
        assert!(!claims.is_expired(after));
        assert!(before + 604_800 <= claims.expires_at());
        assert!(claims.expires_at() <= after + 604_800);
    }
    let stored = store.load("alice").unwrap();
    assert_eq!(stored.version(), 0);
    assert_eq!(stored.salt().len(), 16);
    assert_eq!(stored.hash(), &hasher.hash("p1", stored.salt()).unwrap()[..]);
}

#[test]
fn signup_at_mints_the_token_of_version_zero() {
    let mut store = CredentialStore::new();
    let (hasher, jwt) = (flow_hasher(), flow_codec());
    let token = signup_at(&mut store, &hasher, &jwt, "alice", "p1", 2_000_000_000 - 604_800).unwrap();
    let expected = jwt.encode(&AuthClaims::from_parts("alice".to_string(), 0, 2_000_000_000)).unwrap();
    assert_eq!(token, expected);
}

#[test]
fn login_with_a_wrong_password_is_an_authentication_error() {
    let mut store = CredentialStore::new();
    let (hasher, jwt) = (flow_hasher(), flow_codec());
    signup(&mut store, &hasher, &jwt, "alice", "p1").unwrap();
    assert!(matches!(login(&store, &hasher, &jwt, "alice", "p2"), Err(AuthError::Authentication)));
    assert!(matches!(login(&store, &hasher, &jwt, "alice", "p1 "), Err(AuthError::Authentication)));
    assert_eq!(store.load("alice").unwrap().version(), 0);
}

#[test]
fn login_for_an_unknown_user_is_not_found() {
    let store = CredentialStore::new();
    let (hasher, jwt) = (flow_hasher(), flow_codec());
    assert!(matches!(login(&store, &hasher, &jwt, "nobody", "pw"), Err(AuthError::NotFound)));
}

#[test]
fn a_second_signup_is_a_conflict_and_leaves_the_credential() {
    let mut store = CredentialStore::new();
    let (hasher, jwt) = (flow_hasher(), flow_codec());
    signup(&mut store, &hasher, &jwt, "alice", "p1").unwrap();
    let before = store.load("alice").unwrap();
    assert!(matches!(signup(&mut store, &hasher, &jwt, "alice", "p1"), Err(AuthError::Conflict)));
    assert!(matches!(signup(&mut store, &hasher, &jwt, "alice", "zz"), Err(AuthError::Conflict)));
    let after = store.load("alice").unwrap();
    assert_eq!(after.hash(), before.hash());
    assert_eq!(after.salt(), before.salt());
    assert_eq!(after.version(), before.version());
    assert!(login(&store, &hasher, &jwt, "alice", "p1").is_ok());
}

#[test]
fn a_rotation_raises_the_version_of_later_tokens() {
    let mut store = CredentialStore::new();
    let (hasher, jwt) = (flow_hasher(), flow_codec());
    let early = signup(&mut store, &hasher, &jwt, "alice", "p1").unwrap();
    let salt = store.load("alice").unwrap().salt().to_vec();
    assert!(change_password(&mut store, &hasher, "alice", "p2").is_ok());
    let stored = store.load("alice").unwrap();
    assert_eq!(stored.version(), 1);
    assert_eq!(stored.salt(), &salt[..]);
    assert_eq!(stored.hash(), &hasher.hash("p2", &salt).unwrap()[..]);
    let late = login(&store, &hasher, &jwt, "alice", "p2").unwrap();
    let early_version = jwt.decode(&early).unwrap().version();
    let late_version = jwt.decode(&late).unwrap().version();
    assert_eq!(early_version, 0);
    assert_eq!(late_version, 1);
    assert!(late_version > early_version);
    assert!(matches!(login(&store, &hasher, &jwt, "alice", "p1"), Err(AuthError::Authentication)));
}

#[test]
fn a_token_from_before_a_rotation_is_still_admitted() {
    let mut store = CredentialStore::new();
    let (hasher, jwt) = (flow_hasher(), flow_codec());
    let token_a = signup(&mut store, &hasher, &jwt, "alice", "p1").unwrap();
    assert_eq!(jwt.decode(&token_a).unwrap().version(), 0);
    change_password(&mut store, &hasher, "alice", "p2").unwrap();
    assert_eq!(store.version_of("alice"), Some(1));
    let header = format!("Bearer {}", token_a);
    let identity = Authenticated.new_transform().call(Some(&header), &jwt, &store).unwrap();
    assert_eq!(identity.username(), "alice");
}

#[test]
fn a_token_ahead_of_the_stored_version_is_rejected() {
    let mut store = CredentialStore::new();
    let (hasher, jwt) = (flow_hasher(), flow_codec());
    signup(&mut store, &hasher, &jwt, "alice", "p1").unwrap();
    let ahead = jwt.encode(&AuthClaims::from_parts("alice".to_string(), 1, flow_now() + 60)).unwrap();
    let header = format!("Bearer {}", ahead);
    let verdict = Authenticated.new_transform().call(Some(&header), &jwt, &store);
    assert_eq!(verdict.unwrap_err(), Rejection::InvalidToken);
}

#[test]
fn changing_the_password_of_an_unknown_user_is_not_found() {
    let mut store = CredentialStore::new();
    let hasher = flow_hasher();
    assert!(matches!(change_password(&mut store, &hasher, "nobody", "pw"), Err(AuthError::NotFound)));
    assert!(!store.contains("nobody"));
}

#[test]
fn a_version_at_its_limit_cannot_be_rotated() {
    let mut store = CredentialStore::new();
    let hasher = flow_hasher();
    store
        .insert(Authentication::from_parts("old".to_string(), vec![1; 32], vec![2; 16], u32::MAX))
        .unwrap();
    let refused = change_password(&mut store, &hasher, "old", "pw");
    assert!(matches!(refused, Err(AuthError::Internal(InternalError::VersionExhausted))));
    let stored = store.load("old").unwrap();
    assert_eq!(stored.version(), u32::MAX);
    assert_eq!(stored.hash(), &[1u8; 32][..]);
}

#[test]
fn a_rotation_on_a_broken_record_is_an_internal_error() {
    let mut store = CredentialStore::new();
    let hasher = flow_hasher();
    store
        .insert(Authentication::from_parts("odd".to_string(), vec![1; 32], vec![2; 3], 0))
        .unwrap();
    let refused = change_password(&mut store, &hasher, "odd", "pw");
    assert!(matches!(refused, Err(AuthError::Internal(InternalError::Argon2(_)))));
    assert_eq!(store.version_of("odd"), Some(0));
    let (jwt, t) = (flow_codec(), flow_now());
    let failed = login_at(&store, &hasher, &jwt, "odd", "pw", t);
    assert!(matches!(failed, Err(AuthError::Internal(InternalError::Argon2(_)))));
}

#[test]
fn authenticate_decides_on_the_loaded_record() {
    let (hasher, jwt) = (flow_hasher(), flow_codec());
    assert!(matches!(authenticate(None, "pw", &hasher, &jwt, 0), Err(AuthError::NotFound)));
    let salt = vec![4u8; 16];
    let digest = hasher.hash("pw", &salt).unwrap();
    let loaded = || Authentication::from_parts("eve".to_string(), digest.clone(), salt.clone(), 12);
    assert!(matches!(
        authenticate(Some(loaded()), "wp", &hasher, &jwt, 0),
        Err(AuthError::Authentication)
    ));
    let token = authenticate(Some(loaded()), "pw", &hasher, &jwt, 1_999_395_200).unwrap();
    let expected = jwt.encode(&AuthClaims::from_parts("eve".to_string(), 12, 2_000_000_000)).unwrap();
    assert_eq!(token, expected);
    assert_eq!(issue_at(&jwt, loaded(), 1_999_395_200).unwrap(), expected);
}

#[test]
fn outcomes_map_to_their_status() {
    assert_eq!(AuthError::Validation.status(), 400);
    assert_eq!(AuthError::NotFound.status(), 404);
    assert_eq!(AuthError::Conflict.status(), 400);
    assert_eq!(AuthError::Authentication.status(), 401);
    assert_eq!(AuthError::Internal(InternalError::Storage).status(), 500);
    assert_eq!(AuthError::Internal(InternalError::VersionExhausted).status(), 500);
    assert_eq!(AuthError::Validation.message(), "username/password cannot be empty");
    assert_eq!(AuthError::NotFound.message(), "user not found");
    assert_eq!(AuthError::Conflict.message(), "username already in use");
    assert_eq!(AuthError::Authentication.message(), "invalid credentials");
    assert_eq!(AuthError::Internal(InternalError::Storage).message(), "internal error");
    assert_eq!(
        AuthError::Internal(InternalError::Argon2(argon2::Error::SaltTooShort)).message(),
        "internal error"
    );
    assert!(AuthError::Validation.is_client_error());
    assert!(AuthError::NotFound.is_client_error());
    assert!(AuthError::Conflict.is_client_error());
    assert!(AuthError::Authentication.is_client_error());
    assert!(!AuthError::Internal(InternalError::Storage).is_client_error());
}
