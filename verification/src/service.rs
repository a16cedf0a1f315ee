//! Signup, login and password rotation.

use crate::credential::{Authentication, Credential, User};
use crate::error::{AuthError, Cause, Failure, InternalError};
use crate::hasher::{argon2_accepts, verification, PasswordHasher, MAX_INPUT_LENGTH};
use crate::store::CredentialStore;
use crate::token::{expiry, utc_now, AuthClaims, Claims, JwtConfig};
use vstd::prelude::*;
use vstd::string::StringSliceAdditionalSpecFns;

verus! {

/// Whether a username and a password may be looked at at all: neither is
/// empty.
pub open spec fn acceptable(username: &str, password: &str) -> bool {
    username@.len() > 0 && password@.len() > 0
}

/// Rejects an empty username or password, before anything is read or
/// computed.
pub fn validate(username: &str, password: &str) -> (r: Result<(), AuthError>)
    ensures
        acceptable(username, password) ==> r is Ok,
        !acceptable(username, password) ==> r matches Err(AuthError::Validation),
{
    if username.is_empty() || password.is_empty() {
        Err(AuthError::Validation)
    } else {
        Ok(())
    }
}

/// The token issued at `now` to a user at a revocation version.
pub open spec fn issued(jwt: JwtConfig, username: Seq<char>, version: u32, now: i64) -> Seq<char> {
    jwt.minted(Claims { username, version, exp: expiry(now) })
}

/// Whether a result is the one that `expected` describes.
pub open spec fn agrees(r: Result<String, AuthError>, expected: Result<Seq<char>, Failure>) -> bool {
    match expected {
        Ok(token) => r matches Ok(t) && t@ == token,
        Err(failure) => r matches Err(e) && e@ == failure,
    }
}

/// Mints the token for a credential at the moment `now`: its username, a
/// snapshot of its version, expiring `TOKEN_TTL` later.
pub fn issue_at(jwt: &JwtConfig, authentication: Authentication, now: i64) -> (r: Result<
    String,
    AuthError,
>)
    ensures
        agrees(r, Ok(issued(*jwt, authentication@.username, authentication@.version, now))),
{
    let claims = AuthClaims::create_at(authentication, now);
    match jwt.encode(&claims) {
        Ok(token) => Ok(token),
        Err(e) => Err(AuthError::Internal(InternalError::Jwt(e))),
    }
}

/// What a login attempt with `password` comes to, given the record that the
/// store holds for the username.
pub open spec fn authenticated(
    record: Option<Credential>,
    password: &str,
    secret: Seq<u8>,
    jwt: JwtConfig,
    now: i64,
) -> Result<Seq<char>, Failure> {
    match record {
        None => Err(Failure::NotFound),
        Some(credential) => match verification(
            password.spec_bytes(),
            credential.salt,
            credential.hash,
            secret,
        ) {
            None => Err(Failure::Internal(Cause::Hashing)),
            Some(false) => Err(Failure::Authentication),
            Some(true) => Ok(issued(jwt, credential.username, credential.version, now)),
        },
    }
}

/// The record as a mathematical value.
pub open spec fn record_view(record: Option<Authentication>) -> Option<Credential> {
    match record {
        Some(authentication) => Some(authentication@),
        None => None,
    }
}

/// Decides a login once the record has been loaded: no record, a password
/// that does not verify, or a token that carries the record's current
/// version.
pub fn authenticate(
    record: Option<Authentication>,
    password: &str,
    hasher: &PasswordHasher,
    jwt: &JwtConfig,
    now: i64,
) -> (r: Result<String, AuthError>)
    ensures
        agrees(r, authenticated(record_view(record), password, hasher.secret(), *jwt, now)),
{
    match record {
        None => Err(AuthError::NotFound),
        Some(authentication) => match authentication.verify(password, hasher) {
            Err(e) => Err(AuthError::Internal(e)),
            Ok(false) => Err(AuthError::Authentication),
            Ok(true) => issue_at(jwt, authentication, now),
        },
    }
}

/// What the store holds for a username.
pub open spec fn stored(store: Map<Seq<char>, Credential>, username: Seq<char>) -> Option<
    Credential,
> {
    if store.dom().contains(username) {
        Some(store[username])
    } else {
        None
    }
}

/// What `login_at` returns.
pub open spec fn login_outcome(
    store: Map<Seq<char>, Credential>,
    secret: Seq<u8>,
    jwt: JwtConfig,
    username: &str,
    password: &str,
    now: i64,
) -> Result<Seq<char>, Failure> {
    if !acceptable(username, password) {
        Err(Failure::Validation)
    } else {
        authenticated(stored(store, username@), password, secret, jwt, now)
    }
}

/// Logs a user in at the moment `now`.
///
/// Empty input is refused before the store is read. An unknown username is
/// `NotFound`, a password that does not verify is `Authentication`, and
/// success is a token that carries the version stored at this moment.
pub fn login_at(
    store: &CredentialStore,
    hasher: &PasswordHasher,
    jwt: &JwtConfig,
    username: &str,
    password: &str,
    now: i64,
) -> (r: Result<String, AuthError>)
    ensures
        agrees(r, login_outcome(store@, hasher.secret(), *jwt, username, password, now)),
{
    match validate(username, password) {
        Err(e) => Err(e),
        Ok(()) => authenticate(store.load(username), password, hasher, jwt, now),
    }
}

/// Whether Argon2 takes `password` under a fresh salt and the key `secret`.
pub open spec fn hashable(password: &str, secret: Seq<u8>) -> bool {
    password.spec_bytes().len() <= MAX_INPUT_LENGTH && secret.len() <= MAX_INPUT_LENGTH
}

/// What `signup_at` returns. The salt is drawn at random, so the store after
/// the call is stated in the contract of `signup_at` itself.
pub open spec fn signup_outcome(
    store: Map<Seq<char>, Credential>,
    secret: Seq<u8>,
    jwt: JwtConfig,
    username: &str,
    password: &str,
    now: i64,
) -> Result<Seq<char>, Failure> {
    if !acceptable(username, password) {
        Err(Failure::Validation)
    } else if store.dom().contains(username@) {
        Err(Failure::Conflict)
    } else if !hashable(password, secret) {
        Err(Failure::Internal(Cause::Hashing))
    } else {
        Ok(issued(jwt, username@, 0, now))
    }
}

/// Whether `signup_at` writes to the store: the input is acceptable, the
/// username is free and the password can be hashed.
pub open spec fn signup_writes(
    store: Map<Seq<char>, Credential>,
    secret: Seq<u8>,
    username: &str,
    password: &str,
) -> bool {
    acceptable(username, password) && !store.dom().contains(username@) && hashable(
        password,
        secret,
    )
}

/// Whether `after` is `before` with one new credential for `username`, made
/// from `password` at version zero under some salt of `SALT_LENGTH` bytes.
pub open spec fn enrolled(
    before: Map<Seq<char>, Credential>,
    after: Map<Seq<char>, Credential>,
    secret: Seq<u8>,
    username: &str,
    password: &str,
) -> bool {
    &&& after.dom().contains(username@)
    &&& after == before.insert(username@, after[username@])
    &&& after[username@].salt.len() == crate::hasher::SALT_LENGTH
    &&& after[username@].hash.len() == crate::hasher::HASH_LENGTH
    &&& after[username@] == Authentication::created(
        username@,
        password.spec_bytes(),
        after[username@].salt,
        secret,
    )
}

/// Signs a new user up at the moment `now`.
///
/// Empty input is refused, and so is a username that already has a
/// credential: in both cases, and where the password cannot be hashed, the
/// store stays as it was. Otherwise the store gains a credential at version
/// zero under a fresh salt, and the result is a token for version zero.
pub fn signup_at(
    store: &mut CredentialStore,
    hasher: &PasswordHasher,
    jwt: &JwtConfig,
    username: &str,
    password: &str,
    now: i64,
) -> (r: Result<String, AuthError>)
    ensures
        agrees(r, signup_outcome(old(store)@, hasher.secret(), *jwt, username, password, now)),
        signup_writes(old(store)@, hasher.secret(), username, password) ==> enrolled(
            old(store)@,
            final(store)@,
            hasher.secret(),
            username,
            password,
        ),
        !signup_writes(old(store)@, hasher.secret(), username, password) ==> final(store)@ == old(
            store,
        )@,
{
    match validate(username, password) {
        Err(e) => { return Err(e); },
        Ok(()) => {},
    }
    if store.contains(username) {
        return Err(AuthError::Conflict);
    }
    let user = User::new(username.to_owned());
    let authentication = match Authentication::create(&user, password, hasher) {
        Ok(authentication) => authentication,
        Err(e) => { return Err(AuthError::Internal(e)); },
    };
    match store.insert(authentication.duplicate()) {
        Ok(()) => {},
        Err(e) => { return Err(AuthError::Internal(e)); },
    }
    issue_at(jwt, authentication, now)
}

/// What `change_password` returns.
pub open spec fn rotation_outcome(
    store: Map<Seq<char>, Credential>,
    secret: Seq<u8>,
    username: &str,
    password: &str,
) -> Result<(), Failure> {
    if !store.dom().contains(username@) {
        Err(Failure::NotFound)
    } else if store[username@].version == u32::MAX {
        Err(Failure::Internal(Cause::VersionExhausted))
    } else if !argon2_accepts(password.spec_bytes(), store[username@].salt, secret) {
        Err(Failure::Internal(Cause::Hashing))
    } else {
        Ok(())
    }
}

/// The store after `change_password`: on success the credential of
/// `username` is rotated, and otherwise nothing changes.
pub open spec fn rotation_effect(
    store: Map<Seq<char>, Credential>,
    secret: Seq<u8>,
    username: &str,
    password: &str,
) -> Map<Seq<char>, Credential> {
    if rotation_outcome(store, secret, username, password) is Ok {
        store.insert(
            username@,
            Authentication::rotated(store[username@], password.spec_bytes(), secret),
        )
    } else {
        store
    }
}

/// Rotates the password of `username`: the digest of the new password under
/// the same salt is stored together with the next revocation version.
pub fn change_password(
    store: &mut CredentialStore,
    hasher: &PasswordHasher,
    username: &str,
    password: &str,
) -> (r: Result<(), AuthError>)
    ensures
        match rotation_outcome(old(store)@, hasher.secret(), username, password) {
            Ok(()) => r is Ok,
            Err(failure) => r matches Err(e) && e@ == failure,
        },
        final(store)@ == rotation_effect(old(store)@, hasher.secret(), username, password),
        r is Ok ==> final(store)@[username@].hash.len() == crate::hasher::HASH_LENGTH,
{
    let mut authentication = match store.load(username) {
        Some(authentication) => authentication,
        None => { return Err(AuthError::NotFound); },
    };
    if authentication.version() == u32::MAX {
        return Err(AuthError::Internal(InternalError::VersionExhausted));
    }
    match authentication.change_password(password, hasher) {
        Ok(()) => {},
        Err(e) => { return Err(AuthError::Internal(e)); },
    }
    store.update(authentication);
    Ok(())
}

/// Logs a user in at the present moment of the system clock.
pub fn login(
    store: &CredentialStore,
    hasher: &PasswordHasher,
    jwt: &JwtConfig,
    username: &str,
    password: &str,
) -> (r: Result<String, AuthError>)
    ensures
        exists|now: i64|
            agrees(
                r,
                #[trigger] login_outcome(store@, hasher.secret(), *jwt, username, password, now),
            ),
{
    login_at(store, hasher, jwt, username, password, utc_now())
}

/// Signs a new user up at the present moment of the system clock.
pub fn signup(
    store: &mut CredentialStore,
    hasher: &PasswordHasher,
    jwt: &JwtConfig,
    username: &str,
    password: &str,
) -> (r: Result<String, AuthError>)
    ensures
        exists|now: i64|
            agrees(
                r,
                #[trigger] signup_outcome(
                    old(store)@,
                    hasher.secret(),
                    *jwt,
                    username,
                    password,
                    now,
                ),
            ),
        signup_writes(old(store)@, hasher.secret(), username, password) ==> enrolled(
            old(store)@,
            final(store)@,
            hasher.secret(),
            username,
            password,
        ),
        !signup_writes(old(store)@, hasher.secret(), username, password) ==> final(store)@ == old(
            store,
        )@,
{
    signup_at(store, hasher, jwt, username, password, utc_now())
}

/// Right after a signup, a login with the same username and password gets
/// through to the token: it is issued to that username, at version zero.
pub proof fn lemma_login_after_signup(
    before: Map<Seq<char>, Credential>,
    after: Map<Seq<char>, Credential>,
    secret: Seq<u8>,
    jwt: JwtConfig,
    username: &str,
    password: &str,
    now: i64,
)
    requires
        signup_writes(before, secret, username, password),
        enrolled(before, after, secret, username, password),
    ensures
        login_outcome(after, secret, jwt, username, password, now) == Ok::<Seq<char>, Failure>(
            jwt.minted(Claims { username: username@, version: 0, exp: expiry(now) }),
        ),
{
}

/// A login for a stored user with a password whose digest is not the stored
/// one fails as an authentication error, and mints nothing.
pub proof fn lemma_wrong_password_is_refused(
    store: Map<Seq<char>, Credential>,
    secret: Seq<u8>,
    jwt: JwtConfig,
    username: &str,
    password: &str,
    now: i64,
)
    requires
        acceptable(username, password),
        store.dom().contains(username@),
        verification(
            password.spec_bytes(),
            store[username@].salt,
            store[username@].hash,
            secret,
        ) == Some(false),
    ensures
        login_outcome(store, secret, jwt, username, password, now) == Err::<Seq<char>, Failure>(
            Failure::Authentication,
        ),
{
}

/// A signup for a username that already has a credential is a conflict.
pub proof fn lemma_duplicate_signup_conflicts(
    store: Map<Seq<char>, Credential>,
    secret: Seq<u8>,
    jwt: JwtConfig,
    username: &str,
    password: &str,
    now: i64,
)
    requires
        acceptable(username, password),
        store.dom().contains(username@),
    ensures
        signup_outcome(store, secret, jwt, username, password, now) == Err::<Seq<char>, Failure>(
            Failure::Conflict,
        ),
        !signup_writes(store, secret, username, password),
{
}

/// After a rotation to a new password, a login with that password gets
/// through to a token whose version is the next after the one stored before:
/// strictly greater than the version of every token issued until then.
pub proof fn lemma_login_after_rotation(
    store: Map<Seq<char>, Credential>,
    secret: Seq<u8>,
    jwt: JwtConfig,
    username: &str,
    password: &str,
    now: i64,
)
    requires
        acceptable(username, password),
        rotation_outcome(store, secret, username, password) is Ok,
        store[username@].username == username@,
        Authentication::rotated(store[username@], password.spec_bytes(), secret).hash.len()
            == crate::hasher::HASH_LENGTH,
    ensures
        login_outcome(
            rotation_effect(store, secret, username, password),
            secret,
            jwt,
            username,
            password,
            now,
        ) == Ok::<Seq<char>, Failure>(
            issued(jwt, username@, (store[username@].version + 1) as u32, now),
        ),
        (store[username@].version + 1) as u32 > store[username@].version,
        forall|other: Seq<char>|
            other != username@ ==> #[trigger] stored(
                rotation_effect(store, secret, username, password),
                other,
            ) == stored(store, other),
{
}

/// The revocation version of a user never goes down, and the salt and the
/// username of a credential never change: a rotation raises the version of
/// its user by one, and leaves everything else.
pub proof fn lemma_version_never_decreases(
    store: Map<Seq<char>, Credential>,
    secret: Seq<u8>,
    username: &str,
    password: &str,
    user: Seq<char>,
)
    requires
        store.dom().contains(user),
    ensures
        rotation_effect(store, secret, username, password).dom().contains(user),
        rotation_effect(store, secret, username, password)[user].version >= store[user].version,
        rotation_effect(store, secret, username, password)[user].salt == store[user].salt,
        rotation_effect(store, secret, username, password)[user].username
            == store[user].username,
{
}

} // verus!
